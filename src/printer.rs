use vstd::prelude::*;

use crate::job::{Job, JobView};
use crate::kinds::{
    Charset, Compression, IppVersion, MimeMediaType, NaturalLanguage, Operation, PdlOverride,
};
use crate::state::{JobState, JobStateReason, PrinterState, PrinterStateReason,
    PrinterStateReasonKeyword};
use crate::text::{decimal, decimal_string};
use crate::uri::{PrinterUri, UriAuthenticationMethod, UriSecurityMethod};

verus! {

/// The printer: its configuration, its state, and the jobs it was given.
#[derive(Debug)]
pub struct Printer {
    pub charset_configured: Charset,
    pub charset_supported: Vec<Charset>,
    pub compression_supported: Vec<Compression>,
    pub document_format_default: MimeMediaType,
    pub document_format_supported: Vec<MimeMediaType>,
    pub generated_natural_language_supported: Vec<NaturalLanguage>,
    pub ipp_versions_supported: Vec<IppVersion>,
    pub natural_language_configured: NaturalLanguage,
    pub operations_supported: Vec<Operation>,
    pub pdl_override_supported: PdlOverride,
    pub printer_is_accepting_jobs: bool,
    pub printer_name: String,
    pub printer_state: PrinterState,
    pub printer_state_reasons: Vec<PrinterStateReason>,
    pub printer_up_time: u32,
    pub printer_uri_supported: Vec<PrinterUri>,
    pub jobs: Vec<Job>,
    /// The id that the next job will get.
    pub next_job_id: u32,
}

/// Whether a job counts as queued: it waits, or is being processed.
pub open spec fn is_queued(j: Job) -> bool {
    j.state == JobState::Pending || j.state == JobState::Processing
}

/// The queued jobs among `jobs`, in order.
pub open spec fn queued_jobs(jobs: Seq<Job>) -> Seq<Job> {
    jobs.filter(|j: Job| is_queued(j))
}

/// The address of the job with id `id` on a printer reached at `printer_uri`.
pub open spec fn job_uri(printer_uri: Seq<char>, id: u32) -> Seq<char> {
    printer_uri + "/"@ + decimal(id as nat)
}

/// The views of a list of jobs, in order.
pub open spec fn job_views(jobs: Seq<Job>) -> Seq<JobView> {
    jobs.map_values(|j: Job| j@)
}

impl Printer {
    /// The printer can be reached at an address, every job id is at least 1 and below the next
    /// id, and the jobs stand in the order of their ids.
    pub open spec fn wf(self) -> bool {
        &&& self.printer_uri_supported@.len() >= 1
        &&& 1 <= self.next_job_id
        &&& forall|i: int|
            0 <= i < self.jobs@.len() ==> 1 <= #[trigger] self.jobs@[i].id < self.next_job_id
        &&& forall|i: int, j: int|
            0 <= i < j < self.jobs@.len() ==> #[trigger] self.jobs@[i].id
                < #[trigger] self.jobs@[j].id
    }

    /// The two printers agree on everything but their jobs and the next job id.
    pub open spec fn same_configuration(self, other: Printer) -> bool {
        &&& self.charset_configured == other.charset_configured
        &&& self.charset_supported == other.charset_supported
        &&& self.compression_supported == other.compression_supported
        &&& self.document_format_default == other.document_format_default
        &&& self.document_format_supported == other.document_format_supported
        &&& self.generated_natural_language_supported == other.generated_natural_language_supported
        &&& self.ipp_versions_supported == other.ipp_versions_supported
        &&& self.natural_language_configured == other.natural_language_configured
        &&& self.operations_supported == other.operations_supported
        &&& self.pdl_override_supported == other.pdl_override_supported
        &&& self.printer_is_accepting_jobs == other.printer_is_accepting_jobs
        &&& self.printer_name == other.printer_name
        &&& self.printer_state == other.printer_state
        &&& self.printer_state_reasons == other.printer_state_reasons
        &&& self.printer_up_time == other.printer_up_time
        &&& self.printer_uri_supported == other.printer_uri_supported
    }

    /// The printer's first address, from which job addresses are made.
    pub open spec fn primary_uri(self) -> Seq<char> {
        self.printer_uri_supported@[0].uri@
    }

    /// The number of jobs that wait or are being processed.
    pub fn queued_job_count(&self) -> (r: u32)
        requires
            self.jobs@.len() <= u32::MAX,
        ensures
            r == queued_jobs(self.jobs@).len(),
    {
        let mut count: u32 = 0;
        let mut i: usize = 0;
        while i < self.jobs.len()
            invariant
                i <= self.jobs@.len() <= u32::MAX,
                count == queued_jobs(self.jobs@.subrange(0, i as int)).len(),
                count <= i,
            decreases self.jobs@.len() - i,
        {
            let ghost prefix = self.jobs@.subrange(0, i as int);
            proof {
                assert(self.jobs@.subrange(0, i + 1) =~= prefix.push(self.jobs@[i as int]));
                prefix.lemma_filter_push(self.jobs@[i as int], |j: Job| is_queued(j));
            }
            let state = self.jobs[i].state;
            if state == JobState::Pending || state == JobState::Processing {
                count = count + 1;
            }
            i = i + 1;
        }
        assert(self.jobs@.subrange(0, i as int) =~= self.jobs@);
        count
    }

    /// Whether a job can be created: the printer has an address to derive the job's address
    /// from, and job ids are not used up.
    pub fn can_create_job(&self) -> (r: bool)
        ensures
            r == (self.printer_uri_supported@.len() >= 1 && self.next_job_id < u32::MAX),
    {
        self.printer_uri_supported.len() >= 1 && self.next_job_id < u32::MAX
    }

    /// Creates a job for the document `data` under the next id, keeps it, and returns it.
    pub fn new_job(&mut self, data: &[u8]) -> (r: Job)
        requires
            old(self).printer_uri_supported@.len() >= 1,
            old(self).next_job_id < u32::MAX,
        ensures
            r.id == old(self).next_job_id,
            r.uri@ == job_uri(old(self).primary_uri(), r.id),
            r.state == JobState::Pending,
            r.state_reasons@ == seq![JobStateReason::NoReason],
            r.data@ == data@,
            final(self).next_job_id == old(self).next_job_id + 1,
            job_views(final(self).jobs@) == job_views(old(self).jobs@).push(r@),
            final(self).jobs@.len() == old(self).jobs@.len() + 1,
            forall|i: int|
                0 <= i < old(self).jobs@.len() ==> #[trigger] final(self).jobs@[i] == old(
                    self,
                ).jobs@[i],
            final(self).jobs@.last().id == r.id,
            final(self).same_configuration(*old(self)),
            old(self).wf() ==> final(self).wf(),
    {
        let job_id = self.next_job_id;
        self.next_job_id = self.next_job_id + 1;
        let printer_uri = self.printer_uri_supported[0].uri.clone();
        let id_text = decimal_string(job_id);
        let with_slash = printer_uri.concat("/");
        let uri = with_slash.concat(id_text.as_str());
        let job = Job::new(job_id, uri, data);
        let kept = job.clone();
        let ghost before = self.jobs@;
        self.jobs.push(kept);
        assert(job_views(self.jobs@) =~= job_views(before).push(job@));
        job
    }
}

/// The ids of the jobs of a well-formed printer are all different, and each is below the id the
/// next job will get: job ids are never reused.
pub proof fn lemma_job_ids_unique(p: Printer)
    requires
        p.wf(),
    ensures
        forall|i: int, j: int|
            0 <= i < p.jobs@.len() && 0 <= j < p.jobs@.len() && i != j ==> p.jobs@[i].id
                != p.jobs@[j].id,
        forall|i: int| 0 <= i < p.jobs@.len() ==> p.jobs@[i].id < p.next_job_id,
{
    assert forall|i: int, j: int|
        0 <= i < p.jobs@.len() && 0 <= j < p.jobs@.len() && i != j implies p.jobs@[i].id
        != p.jobs@[j].id by {
        if i < j {
            assert(p.jobs@[i].id < p.jobs@[j].id);
        } else {
            assert(p.jobs@[j].id < p.jobs@[i].id);
        }
    }
}

impl Default for Printer {
    /// A printer named "Default Printer Name", idle and accepting jobs, reached at
    /// `ipp://127.0.0.1:3000/ipp/print`, that speaks version 1.1, accepts PDF and plain text
    /// encoded in UTF-8, and has no jobs yet.
    fn default() -> (r: Printer)
        ensures
            r.wf(),
            r.charset_configured == Charset::Utf8,
            r.charset_supported@ == seq![Charset::Utf8],
            r.compression_supported@ == seq![Compression::NoCompression],
            r.document_format_default == MimeMediaType::Pdf,
            r.document_format_supported@ == seq![MimeMediaType::Pdf, MimeMediaType::PlainText],
            r.generated_natural_language_supported@ == seq![NaturalLanguage::EN],
            r.ipp_versions_supported@ == seq![IppVersion::V1_1],
            r.natural_language_configured == NaturalLanguage::EN,
            r.operations_supported@ == seq![Operation::PrintJob],
            r.pdl_override_supported == PdlOverride::Attempted,
            r.printer_is_accepting_jobs,
            r.printer_name@ == "Default Printer Name"@,
            r.printer_state == PrinterState::Idle,
            r.printer_state_reasons@ == seq![
                PrinterStateReason {
                    keyword: PrinterStateReasonKeyword::NoReason,
                    severity: None,
                },
            ],
            r.printer_up_time == 1,
            r.printer_uri_supported@.len() == 1,
            r.primary_uri() == "ipp://127.0.0.1:3000/ipp/print"@,
            r.printer_uri_supported@[0].authentication == UriAuthenticationMethod::NoAuthentication,
            r.printer_uri_supported@[0].security == UriSecurityMethod::NoSecurity,
            r.jobs@.len() == 0,
            r.next_job_id == 1,
    {
        let mut charset_supported: Vec<Charset> = Vec::new();
        charset_supported.push(Charset::Utf8);
        let mut compression_supported: Vec<Compression> = Vec::new();
        compression_supported.push(Compression::NoCompression);
        let mut document_format_supported: Vec<MimeMediaType> = Vec::new();
        document_format_supported.push(MimeMediaType::Pdf);
        document_format_supported.push(MimeMediaType::PlainText);
        let mut generated_natural_language_supported: Vec<NaturalLanguage> = Vec::new();
        generated_natural_language_supported.push(NaturalLanguage::EN);
        let mut ipp_versions_supported: Vec<IppVersion> = Vec::new();
        ipp_versions_supported.push(IppVersion::V1_1);
        let mut operations_supported: Vec<Operation> = Vec::new();
        operations_supported.push(Operation::PrintJob);
        let mut printer_state_reasons: Vec<PrinterStateReason> = Vec::new();
        printer_state_reasons.push(
            PrinterStateReason { keyword: PrinterStateReasonKeyword::NoReason, severity: None },
        );
        let mut printer_uri_supported: Vec<PrinterUri> = Vec::new();
        printer_uri_supported.push(
            PrinterUri::new(
                "ipp://127.0.0.1:3000/ipp/print",
                UriAuthenticationMethod::NoAuthentication,
                UriSecurityMethod::NoSecurity,
            ),
        );
        let r = Printer {
            charset_configured: Charset::Utf8,
            charset_supported,
            compression_supported,
            document_format_default: MimeMediaType::Pdf,
            document_format_supported,
            generated_natural_language_supported,
            ipp_versions_supported,
            natural_language_configured: NaturalLanguage::EN,
            operations_supported,
            pdl_override_supported: PdlOverride::Attempted,
            printer_is_accepting_jobs: true,
            printer_name: String::from_str("Default Printer Name"),
            printer_state: PrinterState::Idle,
            printer_state_reasons,
            printer_up_time: 1,
            printer_uri_supported,
            jobs: Vec::new(),
            next_job_id: 1,
        };
        assert(r.charset_supported@ =~= seq![Charset::Utf8]);
        assert(r.compression_supported@ =~= seq![Compression::NoCompression]);
        assert(r.document_format_supported@ =~= seq![MimeMediaType::Pdf, MimeMediaType::PlainText]);
        assert(r.generated_natural_language_supported@ =~= seq![NaturalLanguage::EN]);
        assert(r.ipp_versions_supported@ =~= seq![IppVersion::V1_1]);
        assert(r.operations_supported@ =~= seq![Operation::PrintJob]);
        r
    }
}

} // verus!
