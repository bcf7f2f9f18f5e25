use vstd::prelude::*;
use vstd::string::StringExecFns;

use crate::messages::{opt_view, ErrorReport, ErrorReportView, Metadata, MetadataView};
use crate::track::TrackError;

verus! {

/// The identifiers under which metadata is reported. Each is written once:
/// the first request that gets this far sets it, later ones leave it as it is.
pub struct MetadataContext {
    request_id: Option<String>,
    job_id: Option<String>,
    guild_id: Option<String>,
}

pub struct MetadataContextView {
    pub request_id: Option<Seq<char>>,
    pub job_id: Option<Seq<char>>,
    pub guild_id: Option<Seq<char>>,
}

impl View for MetadataContext {
    type V = MetadataContextView;

    closed spec fn view(&self) -> MetadataContextView {
        MetadataContextView {
            request_id: opt_view(self.request_id),
            job_id: opt_view(self.job_id),
            guild_id: opt_view(self.guild_id),
        }
    }
}

/// Keeps a value that is already there; otherwise takes the new one.
pub open spec fn set_once(current: Option<Seq<char>>, value: Seq<char>) -> Option<Seq<char>> {
    match current {
        Some(c) => Some(c),
        None => Some(value),
    }
}

pub open spec fn spec_remember(
    c: MetadataContextView,
    request_id: Seq<char>,
    job_id: Seq<char>,
    guild_id: Seq<char>,
) -> MetadataContextView {
    MetadataContextView {
        request_id: set_once(c.request_id, request_id),
        job_id: set_once(c.job_id, job_id),
        guild_id: set_once(c.guild_id, guild_id),
    }
}

/// Why metadata could not be put together.
#[derive(Debug, Clone, Copy, PartialEq, Eq, Structural)]
pub enum MetadataError {
    MissingJobId,
    MissingGuildId,
}

impl MetadataError {
    /// Both cases are reported with the same text.
    pub open spec fn spec_message(self) -> Seq<char> {
        "Failed to get JOB ID. While getting Metadata"@
    }

    /// The text of the error, as it is reported.
    pub fn message(&self) -> (m: String)
        ensures
            m@ == self.spec_message(),
    {
        String::from_str("Failed to get JOB ID. While getting Metadata")
    }
}

/// The metadata reply: the job and guild of the context, the position, and
/// the duration and sample rate as given.
pub open spec fn spec_codec_metadata(
    c: MetadataContextView,
    duration: Option<u64>,
    sample_rate: Option<u32>,
    position: u64,
) -> Result<MetadataView, MetadataError> {
    match (c.job_id, c.guild_id) {
        (None, _) => Err(MetadataError::MissingJobId),
        (Some(_), None) => Err(MetadataError::MissingGuildId),
        (Some(job_id), Some(guild_id)) => Ok(
            MetadataView { duration, position: Some(position), sample_rate, job_id, guild_id },
        ),
    }
}

pub open spec fn metadata_error_prefix() -> Seq<char> {
    "Failed to perform Metadata Extraction with error: "@
}

fn clone_opt(s: &Option<String>) -> (r: Option<String>)
    ensures
        opt_view(r) == opt_view(*s),
{
    match s {
        Some(s) => Some(s.clone()),
        None => None,
    }
}

impl MetadataContext {
    /// Nothing recorded yet.
    pub fn new() -> (c: Self)
        ensures
            c@.request_id is None,
            c@.job_id is None,
            c@.guild_id is None,
    {
        MetadataContext { request_id: None, job_id: None, guild_id: None }
    }

    pub fn request_id(&self) -> (r: Option<String>)
        ensures
            opt_view(r) == self@.request_id,
    {
        clone_opt(&self.request_id)
    }

    pub fn job_id(&self) -> (r: Option<String>)
        ensures
            opt_view(r) == self@.job_id,
    {
        clone_opt(&self.job_id)
    }

    pub fn guild_id(&self) -> (r: Option<String>)
        ensures
            opt_view(r) == self@.guild_id,
    {
        clone_opt(&self.guild_id)
    }

    /// Records the identifiers of a request; each one only if none is recorded
    /// yet.
    pub fn remember(&mut self, request_id: String, job_id: String, guild_id: String)
        ensures
            final(self)@ == spec_remember(old(self)@, request_id@, job_id@, guild_id@),
    {
        if self.request_id.is_none() {
            self.request_id = Some(request_id);
        }
        if self.job_id.is_none() {
            self.job_id = Some(job_id);
        }
        if self.guild_id.is_none() {
            self.guild_id = Some(guild_id);
        }
    }

    /// The checks of a metadata request before the track is asked for its
    /// position: without a track it is refused and nothing is recorded;
    /// otherwise its identifiers are recorded (first write wins).
    pub fn prepare_metadata(
        &mut self,
        track_present: bool,
        request_id: String,
        job_id: String,
        guild_id: String,
    ) -> (r: Result<(), TrackError>)
        ensures
            r is Err <==> !track_present,
            r matches Err(e) ==> e == TrackError::TrackNotFound,
            final(self)@ == if track_present {
                spec_remember(old(self)@, request_id@, job_id@, guild_id@)
            } else {
                old(self)@
            },
    {
        if !track_present {
            return Err(TrackError::TrackNotFound);
        }
        self.remember(request_id, job_id, guild_id);
        Ok(())
    }

    /// Puts the metadata reply together from the recorded job and guild.
    pub fn codec_metadata(&self, duration: Option<u64>, sample_rate: Option<u32>, position: u64) -> (r:
        Result<Metadata, MetadataError>)
        ensures
            match (r, spec_codec_metadata(self@, duration, sample_rate, position)) {
                (Ok(m), Ok(s)) => m@ == s,
                (Err(e), Err(s)) => e == s,
                _ => false,
            },
    {
        let job_id = match &self.job_id {
            Some(j) => j.clone(),
            None => return Err(MetadataError::MissingJobId),
        };
        let guild_id = match &self.guild_id {
            Some(g) => g.clone(),
            None => return Err(MetadataError::MissingGuildId),
        };
        Ok(Metadata { duration, position: Some(position), sample_rate, job_id, guild_id })
    }

    /// The report for a failed metadata request, under the recorded
    /// identifiers.
    pub fn metadata_error_report(&self, err: &MetadataError) -> (report: ErrorReport)
        requires
            self@.request_id is Some,
            self@.job_id is Some,
            self@.guild_id is Some,
        ensures
            report@ == (ErrorReportView {
                error: metadata_error_prefix() + err.spec_message(),
                request_id: self@.request_id.unwrap(),
                job_id: self@.job_id.unwrap(),
                guild_id: self@.guild_id.unwrap(),
            }),
    {
        let mut error = String::from_str("Failed to perform Metadata Extraction with error: ");
        let message = err.message();
        error.append(message.as_str());
        ErrorReport {
            error,
            request_id: self.request_id.as_ref().unwrap().clone(),
            job_id: self.job_id.as_ref().unwrap().clone(),
            guild_id: self.guild_id.as_ref().unwrap().clone(),
        }
    }
}

/// Metadata is reported under the identifiers of the first request: a later
/// request changes none of them.
pub proof fn lemma_first_request_wins(
    c: MetadataContextView,
    request_id: Seq<char>,
    job_id: Seq<char>,
    guild_id: Seq<char>,
    later_request_id: Seq<char>,
    later_job_id: Seq<char>,
    later_guild_id: Seq<char>,
)
    ensures
        spec_remember(
            spec_remember(c, request_id, job_id, guild_id),
            later_request_id,
            later_job_id,
            later_guild_id,
        ) == spec_remember(c, request_id, job_id, guild_id),
{
}

/// Once a request has been recorded, the metadata reply can always be put
/// together, and it names the recorded job and guild.
pub proof fn lemma_metadata_after_request(
    c: MetadataContextView,
    request_id: Seq<char>,
    job_id: Seq<char>,
    guild_id: Seq<char>,
    duration: Option<u64>,
    sample_rate: Option<u32>,
    position: u64,
)
    ensures
        ({
            let after = spec_remember(c, request_id, job_id, guild_id);
            spec_codec_metadata(after, duration, sample_rate, position) matches Ok(m) && m.job_id
                == after.job_id.unwrap() && m.guild_id == after.guild_id.unwrap() && m.position
                == Some(position)
        }),
{
}

} // verus!
