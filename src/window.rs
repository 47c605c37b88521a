//! Acquiring a window: one attempt with enhanced colour precision (an sRGB
//! framebuffer), one fallback attempt with standard precision, then a fatal
//! failure that keeps both causes.
use vstd::prelude::*;
use vstd::string::StringExecFns;

verus! {

/// Major version of the rendering backend requested for every window.
pub const OPENGL_MAJOR: u32 = 3;

/// Minor version of the rendering backend requested for every window.
pub const OPENGL_MINOR: u32 = 2;

/// Colour precision that one attempt asks for.
#[derive(Clone, Copy, Debug, PartialEq, Eq, Structural)]
pub enum ColorPrecision {
    /// An sRGB framebuffer.
    Enhanced,
    /// Whatever the platform gives by default.
    Standard,
}

/// Everything one attempt to open a window asks the engine for.
#[derive(Clone, Debug)]
pub struct WindowRequest {
    pub title: String,
    pub width: u32,
    pub height: u32,
    pub exit_on_esc: bool,
    pub opengl_major: u32,
    pub opengl_minor: u32,
    pub precision: ColorPrecision,
}

/// Why no window could be had: the cause of each of the two attempts.
#[derive(Clone, Debug)]
pub struct BuildFailure {
    pub enhanced: String,
    pub fallback: String,
}

/// Where an acquisition stands, in terms of plain values.
pub ghost enum Phase {
    /// Nothing attempted yet.
    Start,
    /// The enhanced attempt failed with this cause.
    Fallback(Seq<char>),
    /// A window was obtained, or both attempts failed.
    Finished,
}

/// Model of a [`WindowBuilder`].
pub ghost struct BuilderModel {
    pub title: Seq<char>,
    pub width: u32,
    pub height: u32,
    pub phase: Phase,
}

enum Stage {
    Start,
    Fallback(String),
    Finished,
}

/// Drives the two attempts to open a window for a given title and size.
///
/// The caller asks for [`WindowBuilder::next_request`], performs it on the
/// engine, and hands the outcome to [`WindowBuilder::record`].
pub struct WindowBuilder {
    title: String,
    width: u32,
    height: u32,
    stage: Stage,
}

impl View for WindowBuilder {
    type V = BuilderModel;

    closed spec fn view(&self) -> BuilderModel {
        BuilderModel {
            title: self.title@,
            width: self.width,
            height: self.height,
            phase: match self.stage {
                Stage::Start => Phase::Start,
                Stage::Fallback(cause) => Phase::Fallback(cause@),
                Stage::Finished => Phase::Finished,
            },
        }
    }
}

/// The precision of the attempt that is due in `phase`, if one is.
pub open spec fn due_precision(phase: Phase) -> Option<ColorPrecision> {
    match phase {
        Phase::Start => Some(ColorPrecision::Enhanced),
        Phase::Fallback(_) => Some(ColorPrecision::Standard),
        Phase::Finished => None,
    }
}

/// The phase after an attempt made in `phase` that failed with `failure`,
/// or succeeded where `failure` is `None`.
pub open spec fn phase_after(phase: Phase, failure: Option<Seq<char>>) -> Phase {
    match (phase, failure) {
        (Phase::Start, Some(cause)) => Phase::Fallback(cause),
        _ => Phase::Finished,
    }
}

/// `request` asks for `precision` and otherwise for what `m` was made with:
/// its title and size, closing on escape, and the backend version.
pub open spec fn requests(request: WindowRequest, m: BuilderModel, precision: ColorPrecision) -> bool {
    &&& request.title@ == m.title
    &&& request.width == m.width
    &&& request.height == m.height
    &&& request.exit_on_esc
    &&& request.opengl_major == OPENGL_MAJOR
    &&& request.opengl_minor == OPENGL_MINOR
    &&& request.precision == precision
}

/// An outcome with its cause, if any, as plain text.
pub open spec fn outcome_view<W>(outcome: Result<W, String>) -> Result<W, Seq<char>> {
    match outcome {
        Ok(w) => Ok(w),
        Err(e) => Err(e@),
    }
}

/// What an acquisition has come to, with a failure as its two causes.
pub open spec fn result_view<W>(r: Option<Result<W, BuildFailure>>) -> Option<Result<W, (Seq<char>, Seq<char>)>> {
    match r {
        None => None,
        Some(Ok(w)) => Some(Ok(w)),
        Some(Err(f)) => Some(Err((f.enhanced@, f.fallback@))),
    }
}

/// What an attempt made in `phase` with `outcome` brings: the window once one
/// is had, both causes once both attempts failed, `None` while the fallback
/// attempt is still to come.
pub open spec fn result_after<W>(phase: Phase, outcome: Result<W, Seq<char>>) -> Option<Result<W, (Seq<char>, Seq<char>)>> {
    match (phase, outcome) {
        (_, Ok(w)) => Some(Ok(w)),
        (Phase::Fallback(first), Err(second)) => Some(Err((first, second))),
        _ => None,
    }
}

/// The text that reports a failure with these two causes.
pub open spec fn failure_message(enhanced: Seq<char>, fallback: Seq<char>) -> Seq<char> {
    "Failed to build a window: with sRGB: "@ + enhanced + "; without sRGB: "@ + fallback
}

/// `part` stands somewhere in `text`.
pub open spec fn holds_text(text: Seq<char>, part: Seq<char>) -> bool {
    exists|i: int| 0 <= i <= text.len() - part.len() && #[trigger] text.subrange(i, i + part.len()) == part
}

/// The cause of a failed attempt, `None` for a successful one.
pub open spec fn failure_of<W>(outcome: Result<W, String>) -> Option<Seq<char>> {
    match outcome {
        Ok(_) => None,
        Err(e) => Some(e@),
    }
}

impl BuildFailure {
    /// The text that reports this failure, naming both causes.
    pub fn message(&self) -> (r: String)
        ensures
            r@ == failure_message(self.enhanced@, self.fallback@),
    {
        let mut r = String::from_str("Failed to build a window: with sRGB: ");
        r.append(self.enhanced.as_str());
        r.append("; without sRGB: ");
        r.append(self.fallback.as_str());
        r
    }
}

impl WindowBuilder {
    /// A builder for a window titled `title` of `size` (width, height), with
    /// nothing attempted yet.
    pub fn new(title: &str, size: [u32; 2]) -> (b: WindowBuilder)
        ensures
            b@.title == title@,
            b@.width == size[0],
            b@.height == size[1],
            b@.phase == Phase::Start,
    {
        WindowBuilder { title: title.to_owned(), width: size[0], height: size[1], stage: Stage::Start }
    }

    /// Whether both attempts are behind: a window was had or none can be.
    pub fn is_finished(&self) -> (r: bool)
        ensures
            r == (self@.phase == Phase::Finished),
    {
        match self.stage {
            Stage::Finished => true,
            _ => false,
        }
    }

    /// The attempt that is due, or `None` once the acquisition is over.
    pub fn next_request(&self) -> (r: Option<WindowRequest>)
        ensures
            match due_precision(self@.phase) {
                None => r is None,
                Some(p) => r is Some && requests(r->0, self@, p),
            },
    {
        let precision = match self.stage {
            Stage::Start => ColorPrecision::Enhanced,
            Stage::Fallback(_) => ColorPrecision::Standard,
            Stage::Finished => {
                return None;
            },
        };
        Some(
            WindowRequest {
                title: self.title.clone(),
                width: self.width,
                height: self.height,
                exit_on_esc: true,
                opengl_major: OPENGL_MAJOR,
                opengl_minor: OPENGL_MINOR,
                precision,
            },
        )
    }

    /// Takes the outcome of the attempt that was due.
    ///
    /// Returns `None` while the fallback attempt is still to be made, the
    /// window once one was had, and a [`BuildFailure`] with both causes once
    /// both attempts failed.
    pub fn record<W>(&mut self, outcome: Result<W, String>) -> (r: Option<Result<W, BuildFailure>>)
        requires
            old(self)@.phase != Phase::Finished,
        ensures
            final(self)@ == (BuilderModel { phase: phase_after(old(self)@.phase, failure_of(outcome)), ..old(self)@ }),
            result_view(r) == result_after(old(self)@.phase, outcome_view(outcome)),
    {
        let mut stage = Stage::Finished;
        core::mem::swap(&mut stage, &mut self.stage);
        match outcome {
            Ok(w) => Some(Ok(w)),
            Err(e) => match stage {
                Stage::Start => {
                    self.stage = Stage::Fallback(e);
                    None
                },
                Stage::Fallback(cause) => Some(Err(BuildFailure { enhanced: cause, fallback: e })),
                Stage::Finished => None,
            },
        }
    }
}

/// A window had at the enhanced attempt ends the acquisition: that attempt is
/// the one due first, its window is the result, and no fallback attempt
/// follows.
pub proof fn lemma_enhanced_success_is_final<W>(m: BuilderModel, w: W)
    requires
        m.phase == Phase::Start,
    ensures
        due_precision(m.phase) == Some(ColorPrecision::Enhanced),
        result_after(m.phase, Ok::<W, Seq<char>>(w)) == Some(Ok::<W, (Seq<char>, Seq<char>)>(w)),
        due_precision(phase_after(m.phase, None)) is None,
{
}

/// After a failed enhanced attempt the standard one is due, and a window had
/// there is the result, with nothing of the first failure left.
pub proof fn lemma_fallback_success_is_final<W>(m: BuilderModel, cause: Seq<char>, w: W)
    requires
        m.phase == Phase::Start,
    ensures
        result_after(m.phase, Err::<W, Seq<char>>(cause)) is None,
        due_precision(phase_after(m.phase, Some(cause))) == Some(ColorPrecision::Standard),
        result_after(phase_after(m.phase, Some(cause)), Ok::<W, Seq<char>>(w)) == Some(Ok::<W, (Seq<char>, Seq<char>)>(w)),
        phase_after(phase_after(m.phase, Some(cause)), None) == Phase::Finished,
{
}

/// When both attempts fail the acquisition ends in a failure that keeps both
/// causes, in order, and its message holds each of them.
pub proof fn lemma_double_failure_keeps_both_causes<W>(m: BuilderModel, first: Seq<char>, second: Seq<char>)
    requires
        m.phase == Phase::Start,
    ensures
        result_after(phase_after(m.phase, Some(first)), Err::<W, Seq<char>>(second))
            == Some(Err::<W, (Seq<char>, Seq<char>)>((first, second))),
        phase_after(phase_after(m.phase, Some(first)), Some(second)) == Phase::Finished,
        holds_text(failure_message(first, second), first),
        holds_text(failure_message(first, second), second),
{
    let head: Seq<char> = "Failed to build a window: with sRGB: "@;
    let mid: Seq<char> = "; without sRGB: "@;
    let text = failure_message(first, second);
    assert(text == head + first + mid + second);
    assert(text.subrange(head.len() as int, (head.len() + first.len()) as int) =~= first);
    let at: int = (head.len() + first.len() + mid.len()) as int;
    assert(text.subrange(at, at + second.len() as int) =~= second);
}

} // verus!
