//! Finalization: what happens to a payload once its session is released.
//!
//! The machine never calls the host. [`begin`] and [`Finalization::step`] each
//! answer with the one host call to make next; the driver makes it and reports
//! what came back as an [`Event`]. The calls come in a fixed order, and every
//! path that obtained an image and does not hand it to a launch asks for its
//! release before it finishes:
//!
//! ```text
//! begin ── empty payload ─────────────────────────────▶ Finish(EmptyPayload)
//!   │
//!   ▼ CreateImage
//! AwaitingImage ── error word ────────────────────────▶ Finish(ImageCreateFailed)
//!   │
//!   ▼ WriteImage
//! AwaitingWrite ── negative count ──▶ ReleaseImage ──▶ Finish(ImageWriteFailed)
//!   │
//!   ▼ PrepareLaunch
//! AwaitingRequest ── null word ─────▶ ReleaseImage ──▶ Finish(LaunchPrepFailed)
//!   │
//!   ▼ Execute
//! AwaitingExit ───────────────────────────────────────▶ Finish(Executed)
//! ```
//!
//! An event that does not answer the call in flight changes nothing and asks
//! for nothing.

use vstd::prelude::*;
use crate::handle::{decode_image, decode_request, error_code, is_error_word, ImageHandle, RequestHandle};

verus! {

/// The descriptor at which the helper finds the image.
pub const EXEC_FD: u32 = 3;

/// The size that a fresh image is created with; it grows as it is written.
pub const IMAGE_SIZE_HINT: i64 = 0;

/// The creation flags of the image.
pub const IMAGE_FLAGS: u64 = 0;

/// The offset at which the payload is written into the image.
pub const IMAGE_WRITE_OFFSET: i64 = 0;

/// The name under which the image shows up in the host's introspection tools.
pub fn image_name() -> (name: &'static str)
    ensures
        name@ == "kmod_devexec"@,
{
    "kmod_devexec"
}

/// The path that the helper is started from: descriptor `EXEC_FD` of the
/// process that opens it. It is also the helper's only argument.
pub fn exec_path() -> (path: &'static str)
    ensures
        path@ == "/proc/self/fd/3"@,
{
    "/proc/self/fd/3"
}

/// The character that stands for the one-digit number `d` in a path.
pub open spec fn decimal_digit(d: u32) -> char
    recommends
        d < 10,
{
    (('0' as u32 + d) as u8) as char
}

/// The program path is the path of descriptor `EXEC_FD` of the process that
/// opens it: the path and the index at which the hook installs the image
/// cannot drift apart.
pub proof fn law_exec_path_names_descriptor()
    ensures
        EXEC_FD < 10,
        "/proc/self/fd/3"@ == "/proc/self/fd/"@.push(decimal_digit(EXEC_FD)),
{
    reveal_strlit("/proc/self/fd/3");
    reveal_strlit("/proc/self/fd/");
    assert("/proc/self/fd/3"@ =~= "/proc/self/fd/"@.push(decimal_digit(EXEC_FD)));
}

/// How long the launcher blocks.
#[derive(Clone, Copy, Debug, PartialEq, Eq, Structural)]
pub enum WaitMode {
    /// Until the helper has replaced its program image.
    Exec,
    /// Until the helper process has terminated.
    Process,
}

/// How loudly an outcome is reported.
#[derive(Clone, Copy, Debug, PartialEq, Eq, Structural)]
pub enum Severity {
    Info,
    Warning,
    Error,
}

/// How a finalization ended. None of these reaches the caller that closed the
/// session: they are for the diagnostic log only.
#[derive(Clone, Copy, Debug, PartialEq, Eq, Structural)]
pub enum Outcome {
    /// Nothing had been written: there was nothing to execute.
    EmptyPayload,
    /// The host could not create the image; `code` is its error code.
    ImageCreateFailed { code: isize },
    /// The host could not write the payload; `code` is what the write returned.
    ImageWriteFailed { code: isize },
    /// The host could not prepare the launch.
    LaunchPrepFailed,
    /// The helper ran and terminated; `status` is what the launcher returned.
    Executed { status: i32 },
}

impl Outcome {
    pub open spec fn spec_severity(self) -> Severity {
        match self {
            Outcome::EmptyPayload => Severity::Warning,
            Outcome::Executed { .. } => Severity::Info,
            _ => Severity::Error,
        }
    }

    /// An empty payload is a warning, a terminated helper is information
    /// whatever its status, and every failure of the host is an error.
    #[verifier::when_used_as_spec(spec_severity)]
    pub fn severity(self) -> (s: Severity)
        ensures
            s == self.spec_severity(),
    {
        match self {
            Outcome::EmptyPayload => Severity::Warning,
            Outcome::Executed { .. } => Severity::Info,
            _ => Severity::Error,
        }
    }
}

/// What the host is asked to launch. The program path, the argument vector and
/// the environment are the same for every launch; only the image differs.
#[derive(Clone, Copy, Debug, PartialEq, Eq, Structural)]
pub struct SubprocessRequest {
    /// The image that the pre-exec hook installs in the helper.
    pub image: ImageHandle,
}

impl SubprocessRequest {
    /// The program to start.
    pub fn program_path(&self) -> (path: &'static str)
        ensures
            path@ == "/proc/self/fd/3"@,
    {
        exec_path()
    }

    /// The helper's arguments: the program path and nothing else.
    pub fn argument_vector(&self) -> (argv: Vec<&'static str>)
        ensures
            argv@.len() == 1,
            argv@[0]@ == "/proc/self/fd/3"@,
    {
        let mut argv: Vec<&'static str> = Vec::new();
        argv.push(exec_path());
        argv
    }

    /// The helper's environment: empty.
    pub fn environment(&self) -> (envp: Vec<&'static str>)
        ensures
            envp@.len() == 0,
    {
        Vec::new()
    }

    pub open spec fn spec_context(&self) -> usize {
        self.image.raw
    }

    /// The opaque word that the host carries from the request to the pre-exec
    /// hook: the image handle.
    #[verifier::when_used_as_spec(spec_context)]
    pub fn context(&self) -> (word: usize)
        ensures
            word == self.image.raw,
    {
        self.image.raw
    }
}

/// What a host call returned.
#[derive(Clone, Copy, Debug, PartialEq, Eq, Structural)]
pub enum Event {
    /// Image creation returned `raw`: a handle, or an error word.
    ImageCreated { raw: usize },
    /// The write into the image returned `count`: the number of bytes written,
    /// or a negative error code.
    ImageWritten { count: isize },
    /// Launch preparation returned `raw`: a request, or the null word.
    LaunchPrepared { raw: usize },
    /// The launcher returned `status` after the helper had terminated.
    HelperExited { status: i32 },
    /// The image was released.
    ImageReleased,
}

/// The host call to make next.
#[derive(Clone, Debug, PartialEq, Eq)]
pub enum Action {
    /// Create an anonymous image named `image_name()`.
    CreateImage { size_hint: i64, flags: u64 },
    /// Write all of `bytes` into `image` at `offset`, in one synchronous call.
    WriteImage { image: ImageHandle, bytes: Vec<u8>, offset: i64 },
    /// Prepare the launch of `request`, with the descriptor hook registered.
    /// `written` is the number of bytes that the image took.
    PrepareLaunch { request: SubprocessRequest, written: usize },
    /// Run the helper that `prepared` stands for and block as `wait` says.
    Execute { prepared: RequestHandle, wait: WaitMode },
    /// Drop the reference to `image`.
    ReleaseImage { image: ImageHandle },
    /// Report `outcome`; finalization is over.
    Finish { outcome: Outcome },
    /// Nothing: the event answered no call in flight.
    Nothing,
}

/// An [`Action`] as a mathematical value.
pub enum ActionView {
    CreateImage { size_hint: i64, flags: u64 },
    WriteImage { image: ImageHandle, bytes: Seq<u8>, offset: i64 },
    PrepareLaunch { request: SubprocessRequest, written: usize },
    Execute { prepared: RequestHandle, wait: WaitMode },
    ReleaseImage { image: ImageHandle },
    Finish { outcome: Outcome },
    Nothing,
}

impl View for Action {
    type V = ActionView;

    open spec fn view(&self) -> ActionView {
        match *self {
            Action::CreateImage { size_hint, flags } => ActionView::CreateImage { size_hint, flags },
            Action::WriteImage { image, bytes, offset } => ActionView::WriteImage {
                image,
                bytes: bytes@,
                offset,
            },
            Action::PrepareLaunch { request, written } => ActionView::PrepareLaunch {
                request,
                written,
            },
            Action::Execute { prepared, wait } => ActionView::Execute { prepared, wait },
            Action::ReleaseImage { image } => ActionView::ReleaseImage { image },
            Action::Finish { outcome } => ActionView::Finish { outcome },
            Action::Nothing => ActionView::Nothing,
        }
    }
}

/// Where a finalization stands: which host call is in flight.
#[derive(Clone, Debug, PartialEq, Eq)]
pub enum Finalization {
    /// Image creation is in flight; `payload` waits to be written.
    AwaitingImage { payload: Vec<u8> },
    /// The write into `image` is in flight.
    AwaitingWrite { image: ImageHandle },
    /// Launch preparation is in flight; `image` is still ours to release.
    AwaitingRequest { image: ImageHandle },
    /// The helper runs; `image` went with the request.
    AwaitingExit { image: ImageHandle },
    /// The release of `image` is in flight, after the failure in `outcome`.
    Releasing { image: ImageHandle, outcome: Outcome },
    /// Over.
    Done { outcome: Outcome },
}

/// A [`Finalization`] as a mathematical value.
pub enum FinalizationView {
    AwaitingImage { payload: Seq<u8> },
    AwaitingWrite { image: ImageHandle },
    AwaitingRequest { image: ImageHandle },
    AwaitingExit { image: ImageHandle },
    Releasing { image: ImageHandle, outcome: Outcome },
    Done { outcome: Outcome },
}

impl View for Finalization {
    type V = FinalizationView;

    open spec fn view(&self) -> FinalizationView {
        match *self {
            Finalization::AwaitingImage { payload } => FinalizationView::AwaitingImage {
                payload: payload@,
            },
            Finalization::AwaitingWrite { image } => FinalizationView::AwaitingWrite { image },
            Finalization::AwaitingRequest { image } => FinalizationView::AwaitingRequest { image },
            Finalization::AwaitingExit { image } => FinalizationView::AwaitingExit { image },
            Finalization::Releasing { image, outcome } => FinalizationView::Releasing {
                image,
                outcome,
            },
            Finalization::Done { outcome } => FinalizationView::Done { outcome },
        }
    }
}

/// The first decision: an empty payload ends finalization with a warning and
/// no host call; any other payload asks for an image.
pub open spec fn begin_spec(payload: Seq<u8>) -> (FinalizationView, ActionView) {
    if payload.len() == 0 {
        (
            FinalizationView::Done { outcome: Outcome::EmptyPayload },
            ActionView::Finish { outcome: Outcome::EmptyPayload },
        )
    } else {
        (
            FinalizationView::AwaitingImage { payload },
            ActionView::CreateImage { size_hint: IMAGE_SIZE_HINT, flags: IMAGE_FLAGS },
        )
    }
}

/// The transition relation: the state and the host call that follow `state`
/// when the host reports `event`.
pub open spec fn step_spec(state: FinalizationView, event: Event) -> (
    FinalizationView,
    ActionView,
) {
    match (state, event) {
        (FinalizationView::AwaitingImage { payload }, Event::ImageCreated { raw }) => {
            if is_error_word(raw) {
                let outcome = Outcome::ImageCreateFailed { code: error_code(raw) as isize };
                (FinalizationView::Done { outcome }, ActionView::Finish { outcome })
            } else {
                let image = ImageHandle { raw };
                (
                    FinalizationView::AwaitingWrite { image },
                    ActionView::WriteImage { image, bytes: payload, offset: IMAGE_WRITE_OFFSET },
                )
            }
        },
        (FinalizationView::AwaitingWrite { image }, Event::ImageWritten { count }) => {
            if count < 0 {
                (
                    FinalizationView::Releasing {
                        image,
                        outcome: Outcome::ImageWriteFailed { code: count },
                    },
                    ActionView::ReleaseImage { image },
                )
            } else {
                (
                    FinalizationView::AwaitingRequest { image },
                    ActionView::PrepareLaunch {
                        request: SubprocessRequest { image },
                        written: count as usize,
                    },
                )
            }
        },
        (FinalizationView::AwaitingRequest { image }, Event::LaunchPrepared { raw }) => {
            if raw == 0 {
                (
                    FinalizationView::Releasing { image, outcome: Outcome::LaunchPrepFailed },
                    ActionView::ReleaseImage { image },
                )
            } else {
                (
                    FinalizationView::AwaitingExit { image },
                    ActionView::Execute { prepared: RequestHandle { raw }, wait: WaitMode::Process },
                )
            }
        },
        (FinalizationView::AwaitingExit { image }, Event::HelperExited { status }) => {
            let outcome = Outcome::Executed { status };
            (FinalizationView::Done { outcome }, ActionView::Finish { outcome })
        },
        (FinalizationView::Releasing { image, outcome }, Event::ImageReleased) => {
            (FinalizationView::Done { outcome }, ActionView::Finish { outcome })
        },
        _ => (state, ActionView::Nothing),
    }
}

/// Starts the finalization of `payload`, the bytes taken from a released
/// session.
pub fn begin(payload: Vec<u8>) -> (r: (Finalization, Action))
    ensures
        (r.0@, r.1@) == begin_spec(payload@),
{
    if payload.len() == 0 {
        let outcome = Outcome::EmptyPayload;
        (Finalization::Done { outcome }, Action::Finish { outcome })
    } else {
        (
            Finalization::AwaitingImage { payload },
            Action::CreateImage { size_hint: IMAGE_SIZE_HINT, flags: IMAGE_FLAGS },
        )
    }
}

impl Finalization {
    /// Takes what the host reported and answers with the next state and the
    /// next host call.
    pub fn step(self, event: Event) -> (r: (Finalization, Action))
        ensures
            (r.0@, r.1@) == step_spec(self@, event),
    {
        match (self, event) {
            (Finalization::AwaitingImage { payload }, Event::ImageCreated { raw }) => {
                match decode_image(raw) {
                    Err(code) => {
                        let outcome = Outcome::ImageCreateFailed { code };
                        (Finalization::Done { outcome }, Action::Finish { outcome })
                    },
                    Ok(image) => (
                        Finalization::AwaitingWrite { image },
                        Action::WriteImage { image, bytes: payload, offset: IMAGE_WRITE_OFFSET },
                    ),
                }
            },
            (Finalization::AwaitingWrite { image }, Event::ImageWritten { count }) => {
                if count < 0 {
                    (
                        Finalization::Releasing {
                            image,
                            outcome: Outcome::ImageWriteFailed { code: count },
                        },
                        Action::ReleaseImage { image },
                    )
                } else {
                    (
                        Finalization::AwaitingRequest { image },
                        Action::PrepareLaunch {
                            request: SubprocessRequest { image },
                            written: count as usize,
                        },
                    )
                }
            },
            (Finalization::AwaitingRequest { image }, Event::LaunchPrepared { raw }) => {
                match decode_request(raw) {
                    None => (
                        Finalization::Releasing { image, outcome: Outcome::LaunchPrepFailed },
                        Action::ReleaseImage { image },
                    ),
                    Some(prepared) => (
                        Finalization::AwaitingExit { image },
                        Action::Execute { prepared, wait: WaitMode::Process },
                    ),
                }
            },
            (Finalization::AwaitingExit { image }, Event::HelperExited { status }) => {
                let outcome = Outcome::Executed { status };
                (Finalization::Done { outcome }, Action::Finish { outcome })
            },
            (Finalization::Releasing { image, outcome }, Event::ImageReleased) => {
                (Finalization::Done { outcome }, Action::Finish { outcome })
            },
            (state, _) => (state, Action::Nothing),
        }
    }

    pub open spec fn spec_outcome(&self) -> Option<Outcome> {
        match *self {
            Finalization::Done { outcome } => Some(outcome),
            _ => None,
        }
    }

    /// How finalization ended, once it is over.
    #[verifier::when_used_as_spec(spec_outcome)]
    pub fn outcome(&self) -> (o: Option<Outcome>)
        ensures
            o == self.spec_outcome(),
    {
        match self {
            Finalization::Done { outcome } => Some(*outcome),
            _ => None,
        }
    }
}

} // verus!
