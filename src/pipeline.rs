use vstd::prelude::*;
use vstd::string::*;

use crate::date::Date;
use crate::download::{
    find_image_url, get_page_url, image_filename, image_filename_of, image_url_in, page_url,
    proxied, proxied_url, PAGE_BASE_URL,
};
use crate::retry::{next_attempt, Attempts};
use crate::state::{Update, UpdateSuccess, UpdateWarning};
use crate::{DateUrl, ImageFormat};

verus! {

/// The stage that the work on one item has reached. The stages follow one
/// another in this order, and an item never goes back to an earlier one.
#[derive(Clone, Copy, Debug, PartialEq, Eq, Structural)]
pub enum Step {
    /// Find the address of the image on the day's page.
    Resolve,
    /// Fetch the image.
    Fetch,
    /// Save the image.
    Save,
    /// The image is saved.
    Done,
    /// The item failed, and with it the run.
    Failed,
}

pub open spec fn step_rank(s: Step) -> int {
    match s {
        Step::Resolve => 0,
        Step::Fetch => 1,
        Step::Save => 2,
        Step::Done => 3,
        Step::Failed => 4,
    }
}

/// Why the work on an item ended without its image saved.
#[derive(Clone, Copy, Debug, PartialEq, Eq, Structural)]
pub enum PipelineError {
    /// No attempt found the address of the image.
    ResolveFailed,
    /// No attempt fetched the image.
    FetchFailed,
    /// The image could not be saved.
    SaveFailed,
}

/// What the work on one item holds.
pub struct PipelineView {
    pub date: Date,
    pub step: Step,
    pub image_url: Option<Seq<char>>,
    pub attempts: Attempts,
}

/// What can happen to the work on one item.
pub enum PipelineEvent {
    /// The day's page was fetched, with this body in UTF-8 bytes.
    PageFetched(Seq<u8>),
    /// A request of the current stage failed.
    AttemptFailed,
    /// The image was fetched.
    ImageFetched,
    /// The image was saved.
    ImageSaved,
    /// The image could not be saved.
    SaveFailed,
}

impl PipelineView {
    /// The state after a failed attempt of the current stage: another try, or
    /// failure once the budget is spent.
    pub open spec fn after_failure(self) -> PipelineView {
        match next_attempt(self.attempts).0 {
            Some(_) => PipelineView { attempts: next_attempt(self.attempts).1, ..self },
            None => PipelineView { step: Step::Failed, ..self },
        }
    }

    /// The message that a failed attempt of the current stage gives.
    pub open spec fn failure_report(self) -> Result<Update, PipelineError> {
        match next_attempt(self.attempts).0 {
            Some(attempt) => Ok(
                Update::Warning(
                    if self.step == Step::Resolve {
                        UpdateWarning::FetchUrl { attempt, date: self.date }
                    } else {
                        UpdateWarning::FetchImage { attempt, date: self.date }
                    },
                ),
            ),
            None => Err(
                if self.step == Step::Resolve {
                    PipelineError::ResolveFailed
                } else {
                    PipelineError::FetchFailed
                },
            ),
        }
    }

    /// Whether `e` can happen at this stage.
    pub open spec fn expects(self, e: PipelineEvent) -> bool {
        match e {
            PipelineEvent::PageFetched(_) => self.step == Step::Resolve,
            PipelineEvent::AttemptFailed => self.step == Step::Resolve || self.step == Step::Fetch,
            PipelineEvent::ImageFetched => self.step == Step::Fetch,
            PipelineEvent::ImageSaved => self.step == Step::Save,
            PipelineEvent::SaveFailed => self.step == Step::Save,
        }
    }

    /// The state after `e`; an event that the stage does not expect changes nothing.
    pub open spec fn next(self, e: PipelineEvent) -> PipelineView {
        if !self.expects(e) {
            self
        } else {
            match e {
                PipelineEvent::PageFetched(body) => match image_url_in(body) {
                    Ok(u) => PipelineView {
                        step: Step::Fetch,
                        image_url: Some(u),
                        attempts: Attempts { failed: 0, ..self.attempts },
                        ..self
                    },
                    Err(_) => self.after_failure(),
                },
                PipelineEvent::AttemptFailed => self.after_failure(),
                PipelineEvent::ImageFetched => PipelineView { step: Step::Save, ..self },
                PipelineEvent::ImageSaved => PipelineView { step: Step::Done, ..self },
                PipelineEvent::SaveFailed => PipelineView { step: Step::Failed, ..self },
            }
        }
    }

    /// The message that `e` gives at this stage.
    pub open spec fn report(self, e: PipelineEvent) -> Result<Update, PipelineError> {
        match e {
            PipelineEvent::PageFetched(body) => match image_url_in(body) {
                Ok(_) => Ok(Update::Success(UpdateSuccess::FetchUrl { date: self.date })),
                Err(_) => self.failure_report(),
            },
            PipelineEvent::AttemptFailed => self.failure_report(),
            PipelineEvent::ImageFetched => Ok(
                Update::Success(UpdateSuccess::FetchImage { date: self.date }),
            ),
            PipelineEvent::ImageSaved => Ok(
                Update::Success(UpdateSuccess::SaveImage { date: self.date }),
            ),
            PipelineEvent::SaveFailed => Err(PipelineError::SaveFailed),
        }
    }

    /// The state after each of `events` in order.
    pub open spec fn run_events(self, events: Seq<PipelineEvent>) -> PipelineView
        decreases events.len(),
    {
        if events.len() == 0 {
            self
        } else {
            self.next(events[0]).run_events(events.drop_first())
        }
    }
}

/// Whatever happens to an item, its work never goes back to an earlier stage.
pub proof fn lemma_steps_move_forward(v: PipelineView, events: Seq<PipelineEvent>)
    ensures
        step_rank(v.run_events(events).step) >= step_rank(v.step),
    decreases events.len(),
{
    if events.len() > 0 {
        lemma_steps_move_forward(v.next(events[0]), events.drop_first());
    }
}

/// An item whose image address is known before its work begins never reaches
/// the stage that looks the address up, whatever happens to it afterwards: no
/// page is requested for it.
pub proof fn lemma_known_url_never_resolves(
    item: DateUrl,
    max_attempts: usize,
    events: Seq<PipelineEvent>,
)
    requires
        item.image_url is Some,
    ensures
        start_of(item, max_attempts).run_events(events).step != Step::Resolve,
{
    lemma_steps_move_forward(start_of(item, max_attempts), events);
}

/// The view of an optional address.
pub open spec fn url_view(u: Option<String>) -> Option<Seq<char>> {
    match u {
        Some(s) => Some(s@),
        None => None,
    }
}

/// The view of an optional proxy address.
pub open spec fn proxy_view(p: Option<&str>) -> Option<Seq<char>> {
    match p {
        Some(s) => Some(s@),
        None => None,
    }
}

/// Where the work on `item` begins: at fetching the image where its address
/// is known, and otherwise at looking it up.
pub open spec fn start_of(item: DateUrl, max_attempts: usize) -> PipelineView {
    PipelineView {
        date: item.date,
        step: if item.image_url is Some { Step::Fetch } else { Step::Resolve },
        image_url: url_view(item.image_url),
        attempts: Attempts { max_attempts, failed: 0 },
    }
}

/// The work on one item: look up the address of its image unless it is known,
/// fetch the image, save it. Each request is tried again after a failure
/// while the budget lasts; saving is not.
pub struct Pipeline {
    date: Date,
    step: Step,
    image_url: Option<String>,
    attempts: Attempts,
}

impl View for Pipeline {
    type V = PipelineView;

    closed spec fn view(&self) -> PipelineView {
        PipelineView {
            date: self.date,
            step: self.step,
            image_url: url_view(self.image_url),
            attempts: self.attempts,
        }
    }
}

impl Pipeline {
    #[verifier::type_invariant]
    closed spec fn inv(self) -> bool {
        self.step == Step::Resolve || self.step == Step::Failed || self.image_url is Some
    }

    pub fn new(item: DateUrl, max_attempts: usize) -> (r: Pipeline)
        requires
            max_attempts > 0,
        ensures
            r@ == start_of(item, max_attempts),
    {
        let step = if item.image_url.is_some() {
            Step::Fetch
        } else {
            Step::Resolve
        };
        Pipeline {
            date: item.date,
            step,
            image_url: item.image_url,
            attempts: Attempts::new(max_attempts),
        }
    }

    pub fn step(&self) -> (r: Step)
        ensures
            r == self@.step,
    {
        self.step
    }

    pub fn date(&self) -> (r: Date)
        ensures
            r == self@.date,
    {
        self.date
    }

    /// The address to request at the current stage: the day's page while
    /// looking up the image, then the image itself.
    pub fn request_url(&self, proxy: Option<&str>) -> (r: String)
        requires
            self@.step == Step::Resolve || self@.step == Step::Fetch,
        ensures
            self@.step == Step::Resolve ==> r@ == page_url(
                proxy_view(proxy),
                PAGE_BASE_URL@,
                self@.date@,
            ),
            self@.step == Step::Fetch ==> (self@.image_url matches Some(u) && r@ == proxied(
                proxy_view(proxy),
                u,
            )),
    {
        proof {
            use_type_invariant(self);
        }
        match &self.image_url {
            Some(url) if self.step == Step::Fetch => proxied_url(proxy, url.as_str()),
            _ => get_page_url(proxy, PAGE_BASE_URL, &self.date),
        }
    }

    /// The name of the file to save the image in.
    pub fn filename(&self, format: ImageFormat) -> (r: String)
        ensures
            r@ == image_filename_of(self@.date@, format),
    {
        image_filename(&self.date, format)
    }

    fn record_failure(&mut self) -> (r: Result<Update, PipelineError>)
        requires
            old(self)@.step == Step::Resolve || old(self)@.step == Step::Fetch,
        ensures
            final(self)@ == old(self)@.after_failure(),
            r == old(self)@.failure_report(),
    {
        proof {
            use_type_invariant(&*self);
        }
        let resolving = self.step == Step::Resolve;
        let mut attempts = self.attempts;
        let next = attempts.fail();
        self.attempts = attempts;
        match next {
            Some(attempt) => {
                let date = self.date;
                if resolving {
                    Ok(Update::Warning(UpdateWarning::FetchUrl { attempt, date }))
                } else {
                    Ok(Update::Warning(UpdateWarning::FetchImage { attempt, date }))
                }
            },
            None => {
                self.step = Step::Failed;
                if resolving {
                    Err(PipelineError::ResolveFailed)
                } else {
                    Err(PipelineError::FetchFailed)
                }
            },
        }
    }

    /// The day's page was fetched: looks for the address of the image in it.
    /// Where there is none, the attempt counts as failed.
    pub fn page_fetched(&mut self, body: &str) -> (r: Result<Update, PipelineError>)
        requires
            old(self)@.step == Step::Resolve,
        ensures
            final(self)@ == old(self)@.next(PipelineEvent::PageFetched(body.spec_bytes())),
            r == old(self)@.report(PipelineEvent::PageFetched(body.spec_bytes())),
    {
        proof {
            use_type_invariant(&*self);
        }
        match find_image_url(body) {
            Ok(url) => {
                self.image_url = Some(url);
                self.step = Step::Fetch;
                self.attempts.failed = 0;
                Ok(Update::Success(UpdateSuccess::FetchUrl { date: self.date }))
            },
            Err(_) => self.record_failure(),
        }
    }

    /// A request of the current stage failed.
    pub fn attempt_failed(&mut self) -> (r: Result<Update, PipelineError>)
        requires
            old(self)@.step == Step::Resolve || old(self)@.step == Step::Fetch,
        ensures
            final(self)@ == old(self)@.next(PipelineEvent::AttemptFailed),
            r == old(self)@.report(PipelineEvent::AttemptFailed),
    {
        self.record_failure()
    }

    /// The image was fetched.
    pub fn image_fetched(&mut self) -> (r: Update)
        requires
            old(self)@.step == Step::Fetch,
        ensures
            final(self)@ == old(self)@.next(PipelineEvent::ImageFetched),
            Ok::<Update, PipelineError>(r) == old(self)@.report(PipelineEvent::ImageFetched),
    {
        proof {
            use_type_invariant(&*self);
        }
        self.step = Step::Save;
        Update::Success(UpdateSuccess::FetchImage { date: self.date })
    }

    /// The image was saved.
    pub fn image_saved(&mut self) -> (r: Update)
        requires
            old(self)@.step == Step::Save,
        ensures
            final(self)@ == old(self)@.next(PipelineEvent::ImageSaved),
            Ok::<Update, PipelineError>(r) == old(self)@.report(PipelineEvent::ImageSaved),
    {
        proof {
            use_type_invariant(&*self);
        }
        self.step = Step::Done;
        Update::Success(UpdateSuccess::SaveImage { date: self.date })
    }

    /// The image could not be saved; that is not tried again.
    pub fn save_failed(&mut self) -> (r: PipelineError)
        requires
            old(self)@.step == Step::Save,
        ensures
            final(self)@ == old(self)@.next(PipelineEvent::SaveFailed),
            Err::<Update, PipelineError>(r) == old(self)@.report(PipelineEvent::SaveFailed),
    {
        proof {
            use_type_invariant(&*self);
        }
        self.step = Step::Failed;
        PipelineError::SaveFailed
    }
}

} // verus!
