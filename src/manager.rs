//! The shortcut manager's decisions. A change of shortcut (asked for by the
//! user, or made at startup) is a short exchange with the operating system:
//! the manager names an action, the caller performs it and reports how it
//! went, and the manager names the next one. The current shortcut changes
//! only once its binding has been registered (and, for a user request,
//! persisted).

use vstd::prelude::*;
use crate::shortcut::{
    default_text, hotkey_accepts, lemma_default_text, loaded_spec, opt_string_view,
    normalize_shortcut, shortcut_from_file, ErrorView, ShortcutBinding, ShortcutError,
    DEFAULT_GLOBAL_SHORTCUT,
};
use crate::text::trimmed;

verus! {

/// Who asked for a change.
#[derive(Clone, Copy, Debug, PartialEq, Eq, Structural)]
pub enum ChangeKind {
    /// The user submitted a new shortcut.
    Request,
    /// Registration of the configured shortcut at startup.
    Startup,
    /// Registration of the default after the configured one failed at startup.
    Fallback,
}

/// Where a change stands.
#[derive(Clone, Copy, Debug, PartialEq, Eq, Structural)]
pub enum Phase {
    /// Waiting for every registered shortcut to be released.
    Clearing,
    /// Waiting for the new binding to be registered.
    Registering,
    /// Waiting for the new shortcut to be persisted.
    Saving,
}

pub struct ChangeView {
    pub kind: ChangeKind,
    pub phase: Phase,
    pub text: Seq<char>,
}

/// A change of shortcut in progress.
pub struct ShortcutChange {
    kind: ChangeKind,
    phase: Phase,
    binding: ShortcutBinding,
}

impl View for ShortcutChange {
    type V = ChangeView;

    closed spec fn view(&self) -> ChangeView {
        ChangeView { kind: self.kind, phase: self.phase, text: self.binding@ }
    }
}

pub enum ActionView {
    UnregisterAll,
    Register(Seq<char>),
    Save(Seq<char>),
    Finish(Result<(), ErrorView>),
}

/// What the caller is to do next.
pub enum HotkeyAction {
    /// Release every registered global shortcut.
    UnregisterAll,
    /// Register this binding.
    Register(ShortcutBinding),
    /// Write this text to the persisted shortcut file.
    Save(String),
    /// The change is over, with this result.
    Finish(Result<(), ShortcutError>),
}

impl View for HotkeyAction {
    type V = ActionView;

    open spec fn view(&self) -> ActionView {
        match self {
            HotkeyAction::UnregisterAll => ActionView::UnregisterAll,
            HotkeyAction::Register(b) => ActionView::Register(b@),
            HotkeyAction::Save(s) => ActionView::Save(s@),
            HotkeyAction::Finish(r) => ActionView::Finish(
                match r {
                    Ok(_) => Ok(()),
                    Err(e) => Err(e@),
                },
            ),
        }
    }
}

/// A step of the exchange: the change that goes on, if any, and the action.
pub struct StepView {
    pub next: Option<ChangeView>,
    pub action: ActionView,
}

pub open spec fn outcome_view(o: Result<(), String>) -> Result<(), Seq<char>> {
    match o {
        Ok(_) => Ok(()),
        Err(e) => Err(e@),
    }
}

pub open spec fn change_opt_view(c: Option<ShortcutChange>) -> Option<ChangeView> {
    match c {
        Some(c) => Some(c@),
        None => None,
    }
}

/// After a failure: at startup, a configured shortcut other than the
/// default gives way to the default; otherwise the change ends with `err`.
pub open spec fn after_failure(kind: ChangeKind, text: Seq<char>, err: ErrorView) -> StepView {
    if kind == ChangeKind::Startup && text != default_text() {
        StepView {
            next: Some(ChangeView { kind: ChangeKind::Fallback, phase: Phase::Clearing, text: default_text() }),
            action: ActionView::UnregisterAll,
        }
    } else {
        StepView { next: None, action: ActionView::Finish(Err(err)) }
    }
}

/// The step that follows the report `o` on the action of `c`.
pub open spec fn step_spec(c: ChangeView, o: Result<(), Seq<char>>) -> StepView {
    match c.phase {
        Phase::Clearing => match o {
            Ok(_) => StepView {
                next: Some(ChangeView { phase: Phase::Registering, ..c }),
                action: ActionView::Register(c.text),
            },
            Err(e) => after_failure(c.kind, c.text, ErrorView::ClearFailed(e)),
        },
        Phase::Registering => match o {
            Ok(_) => if c.kind == ChangeKind::Startup {
                StepView { next: None, action: ActionView::Finish(Ok(())) }
            } else {
                StepView {
                    next: Some(ChangeView { phase: Phase::Saving, ..c }),
                    action: ActionView::Save(c.text),
                }
            },
            Err(e) => after_failure(c.kind, c.text, ErrorView::RegisterFailed(c.text, e)),
        },
        Phase::Saving => match o {
            Err(e) if c.kind == ChangeKind::Request => StepView {
                next: None,
                action: ActionView::Finish(Err(ErrorView::SaveFailed(e))),
            },
            _ => StepView { next: None, action: ActionView::Finish(Ok(())) },
        },
    }
}

/// The current shortcut after the report `o` on the action of `c`: the
/// change's text once it is registered (and, for a user request, saved).
pub open spec fn current_after(c: ChangeView, current: Seq<char>, o: Result<(), Seq<char>>) -> Seq<char> {
    if o is Ok && ((c.phase == Phase::Registering && c.kind != ChangeKind::Request) || (c.phase
        == Phase::Saving && c.kind == ChangeKind::Request)) {
        c.text
    } else {
        current
    }
}

/// How a user request for `raw` starts.
pub open spec fn request_spec(raw: Seq<char>) -> Result<StepView, ErrorView> {
    if trimmed(raw).len() == 0 {
        Err(ErrorView::EmptyShortcut)
    } else if !hotkey_accepts(trimmed(raw)) {
        Err(ErrorView::InvalidShortcut(trimmed(raw)))
    } else {
        Ok(
            StepView {
                next: Some(ChangeView { kind: ChangeKind::Request, phase: Phase::Clearing, text: trimmed(raw) }),
                action: ActionView::UnregisterAll,
            },
        )
    }
}

/// The shortcut configured at startup: the persisted one, else the default.
pub open spec fn configured_spec(contents: Option<Seq<char>>) -> Seq<char> {
    match loaded_spec(contents) {
        Some(s) => s,
        None => default_text(),
    }
}

/// How the startup registration starts, given the persisted file's contents.
pub open spec fn startup_spec(contents: Option<Seq<char>>) -> StepView {
    let text = configured_spec(contents);
    if hotkey_accepts(text) {
        StepView {
            next: Some(ChangeView { kind: ChangeKind::Startup, phase: Phase::Clearing, text }),
            action: ActionView::UnregisterAll,
        }
    } else {
        after_failure(ChangeKind::Startup, text, ErrorView::InvalidShortcut(text))
    }
}

/// The process-wide shortcut state: the shortcut that is currently active.
pub struct ShortcutConfigState {
    current: String,
}

impl View for ShortcutConfigState {
    type V = Seq<char>;

    closed spec fn view(&self) -> Seq<char> {
        self.current@
    }
}

impl ShortcutConfigState {
    /// State at process start: the default shortcut.
    pub fn new() -> (r: ShortcutConfigState)
        ensures
            r@ == default_text(),
    {
        proof {
            lemma_default_text();
        }
        ShortcutConfigState { current: String::from_str(DEFAULT_GLOBAL_SHORTCUT) }
    }

    /// The current shortcut.
    pub fn get_global_shortcut(&self) -> (r: String)
        ensures
            r@ == self@,
    {
        self.current.clone()
    }
}

fn fail(kind: ChangeKind, text: String, err: ShortcutError) -> (r: (
    Option<ShortcutChange>,
    HotkeyAction,
))
    ensures
        change_opt_view(r.0) == after_failure(kind, text@, err@).next,
        r.1@ == after_failure(kind, text@, err@).action,
{
    proof {
        lemma_default_text();
    }
    let default_value = String::from_str(DEFAULT_GLOBAL_SHORTCUT);
    if kind == ChangeKind::Startup && !(text == default_value) {
        match ShortcutBinding::parse(default_value) {
            Ok(binding) => (
                Some(ShortcutChange { kind: ChangeKind::Fallback, phase: Phase::Clearing, binding }),
                HotkeyAction::UnregisterAll,
            ),
            // never taken: the grammar accepts the default
            Err(e) => (None, HotkeyAction::Finish(Err(e))),
        }
    } else {
        (None, HotkeyAction::Finish(Err(err)))
    }
}

impl ShortcutChange {
    /// Starts a user request to use `raw` as the shortcut: trimmed, blank
    /// text is `EmptyShortcut` and text the grammar rejects is
    /// `InvalidShortcut`; otherwise the first action is `UnregisterAll`.
    pub fn request(raw: &str) -> (r: Result<(ShortcutChange, HotkeyAction), ShortcutError>)
        ensures
            match r {
                Ok((c, a)) => request_spec(raw@) == Ok::<StepView, ErrorView>(
                    StepView { next: Some(c@), action: a@ },
                ),
                Err(e) => request_spec(raw@) == Err::<StepView, ErrorView>(e@),
            },
    {
        let normalized = match normalize_shortcut(raw) {
            Ok(s) => s,
            Err(e) => {
                return Err(e);
            },
        };
        match ShortcutBinding::parse(normalized) {
            Ok(binding) => Ok(
                (
                    ShortcutChange { kind: ChangeKind::Request, phase: Phase::Clearing, binding },
                    HotkeyAction::UnregisterAll,
                ),
            ),
            Err(e) => Err(e),
        }
    }

    /// Starts the startup registration from the persisted file's contents
    /// (`None` where it could not be read).
    pub fn startup(contents: Option<String>) -> (r: (Option<ShortcutChange>, HotkeyAction))
        ensures
            change_opt_view(r.0) == startup_spec(opt_string_view(contents)).next,
            r.1@ == startup_spec(opt_string_view(contents)).action,
    {
        proof {
            lemma_default_text();
        }
        let configured = match shortcut_from_file(contents) {
            Some(s) => s,
            None => String::from_str(DEFAULT_GLOBAL_SHORTCUT),
        };
        match ShortcutBinding::parse(configured.clone()) {
            Ok(binding) => (
                Some(ShortcutChange { kind: ChangeKind::Startup, phase: Phase::Clearing, binding }),
                HotkeyAction::UnregisterAll,
            ),
            Err(e) => fail(ChangeKind::Startup, configured, e),
        }
    }

    /// What this change is.
    pub fn kind(&self) -> (r: ChangeKind)
        ensures
            r == self@.kind,
    {
        self.kind
    }

    /// Takes the report `outcome` on the last action and names the next one,
    /// updating `state` once the change's shortcut is in force.
    pub fn advance(self, state: &mut ShortcutConfigState, outcome: Result<(), String>) -> (r: (
        Option<ShortcutChange>,
        HotkeyAction,
    ))
        ensures
            change_opt_view(r.0) == step_spec(self@, outcome_view(outcome)).next,
            r.1@ == step_spec(self@, outcome_view(outcome)).action,
            final(state)@ == current_after(self@, old(state)@, outcome_view(outcome)),
    {
        match self.phase {
            Phase::Clearing => match outcome {
                Ok(()) => {
                    let action = HotkeyAction::Register(self.binding.duplicate());
                    (Some(ShortcutChange { phase: Phase::Registering, ..self }), action)
                },
                Err(reason) => fail(self.kind, self.binding.text(), ShortcutError::ClearFailed { reason }),
            },
            Phase::Registering => match outcome {
                Ok(()) => {
                    if self.kind != ChangeKind::Request {
                        state.current = self.binding.text();
                    }
                    if self.kind == ChangeKind::Startup {
                        (None, HotkeyAction::Finish(Ok(())))
                    } else {
                        let action = HotkeyAction::Save(self.binding.text());
                        (Some(ShortcutChange { phase: Phase::Saving, ..self }), action)
                    }
                },
                Err(reason) => {
                    let shortcut = self.binding.text();
                    fail(self.kind, self.binding.text(), ShortcutError::RegisterFailed { shortcut, reason })
                },
            },
            Phase::Saving => match outcome {
                Ok(()) => {
                    if self.kind == ChangeKind::Request {
                        state.current = self.binding.text();
                    }
                    (None, HotkeyAction::Finish(Ok(())))
                },
                Err(reason) => {
                    if self.kind == ChangeKind::Request {
                        (None, HotkeyAction::Finish(Err(ShortcutError::SaveFailed { reason })))
                    } else {
                        (None, HotkeyAction::Finish(Ok(())))
                    }
                },
            },
        }
    }
}

/// The shortcuts live with the operating system after `action` was
/// performed with the report `o`: releasing all of them empties the table,
/// registering one adds it, and a failed action leaves the table as it was.
pub open spec fn registry_after(live: Set<Seq<char>>, action: ActionView, o: Result<(), Seq<char>>) -> Set<Seq<char>> {
    match action {
        ActionView::UnregisterAll => if o is Ok {
            Set::empty()
        } else {
            live
        },
        ActionView::Register(text) => if o is Ok {
            live.insert(text)
        } else {
            live
        },
        _ => live,
    }
}

/// A blank request fails with `EmptyShortcut` before any action, so the
/// current shortcut and the persisted file stay as they were.
pub proof fn lemma_blank_request_rejected(raw: Seq<char>)
    requires
        trimmed(raw).len() == 0,
    ensures
        request_spec(raw) == Err::<StepView, ErrorView>(ErrorView::EmptyShortcut),
{
}

/// A request whose binding the operating system refuses ends in
/// `RegisterFailed` without a save, and the current shortcut is unchanged.
pub proof fn lemma_refused_request_changes_nothing(
    c: ChangeView,
    current: Seq<char>,
    reason: Seq<char>,
)
    requires
        c.kind == ChangeKind::Request,
        c.phase == Phase::Registering,
    ensures
        current_after(c, current, Err(reason)) == current,
        step_spec(c, Err(reason)) == (StepView {
            next: None,
            action: ActionView::Finish(Err(ErrorView::RegisterFailed(c.text, reason))),
        }),
{
}

/// A request whose previous bindings cannot be released ends in
/// `ClearFailed` without a registration or a save, and the current shortcut
/// is unchanged.
pub proof fn lemma_uncleared_request_changes_nothing(
    c: ChangeView,
    current: Seq<char>,
    reason: Seq<char>,
)
    requires
        c.kind == ChangeKind::Request,
        c.phase == Phase::Clearing,
    ensures
        current_after(c, current, Err(reason)) == current,
        step_spec(c, Err(reason)) == (StepView {
            next: None,
            action: ActionView::Finish(Err(ErrorView::ClearFailed(reason))),
        }),
{
}

/// A request for `raw` that goes through releases every binding, then
/// registers the new one alone: whatever was live before, afterwards only
/// the new shortcut is, and it becomes the current one once saved.
pub proof fn lemma_request_leaves_single_binding(
    raw: Seq<char>,
    live: Set<Seq<char>>,
    current: Seq<char>,
)
    requires
        request_spec(raw) is Ok,
    ensures
        ({
            let start = request_spec(raw)->Ok_0;
            let c0 = start.next->Some_0;
            let s1 = step_spec(c0, Ok(()));
            let c1 = s1.next->Some_0;
            let s2 = step_spec(c1, Ok(()));
            let c2 = s2.next->Some_0;
            &&& start.action == ActionView::UnregisterAll
            &&& s1.action == ActionView::Register(trimmed(raw))
            &&& registry_after(registry_after(live, start.action, Ok(())), s1.action, Ok(()))
                == set![trimmed(raw)]
            &&& s2.action == ActionView::Save(trimmed(raw))
            &&& current_after(c2, current_after(c1, current_after(c0, current, Ok(())), Ok(())), Ok(()))
                == trimmed(raw)
        }),
{
    assert(Set::<Seq<char>>::empty().insert(trimmed(raw)) =~= set![trimmed(raw)]);
}

/// At startup, a persisted shortcut other than the default that the grammar
/// accepts but the operating system refuses gives way to the default: once
/// the default is registered, it is the only live binding and the current
/// shortcut, and it is persisted.
pub proof fn lemma_startup_falls_back_when_refused(
    contents: Seq<char>,
    live: Set<Seq<char>>,
    current: Seq<char>,
    reason: Seq<char>,
)
    requires
        trimmed(contents).len() > 0,
        trimmed(contents) != default_text(),
        hotkey_accepts(trimmed(contents)),
    ensures
        ({
            let start = startup_spec(Some(contents));
            let c0 = start.next->Some_0;
            let s1 = step_spec(c0, Ok(()));
            let c1 = s1.next->Some_0;
            let s2 = step_spec(c1, Err(reason));
            let c2 = s2.next->Some_0;
            let s3 = step_spec(c2, Ok(()));
            let c3 = s3.next->Some_0;
            let s4 = step_spec(c3, Ok(()));
            let live1 = registry_after(live, start.action, Ok(()));
            let live2 = registry_after(live1, s1.action, Err(reason));
            let live3 = registry_after(live2, s2.action, Ok(()));
            let live4 = registry_after(live3, s3.action, Ok(()));
            let cur = current_after(
                c3,
                current_after(
                    c2,
                    current_after(c1, current_after(c0, current, Ok(())), Err(reason)),
                    Ok(()),
                ),
                Ok(()),
            );
            &&& s1.action == ActionView::Register(trimmed(contents))
            &&& s3.action == ActionView::Register(default_text())
            &&& s4.action == ActionView::Save(default_text())
            &&& live4 == set![default_text()]
            &&& cur == default_text()
        }),
{
    assert(Set::<Seq<char>>::empty().insert(default_text()) =~= set![default_text()]);
}

/// At startup, a persisted shortcut other than the default that the grammar
/// rejects gives way to the default at once: once the default is
/// registered, it is the only live binding and the current shortcut, and it
/// is persisted.
pub proof fn lemma_startup_falls_back_when_invalid(
    contents: Seq<char>,
    live: Set<Seq<char>>,
    current: Seq<char>,
)
    requires
        trimmed(contents).len() > 0,
        trimmed(contents) != default_text(),
        !hotkey_accepts(trimmed(contents)),
    ensures
        ({
            let start = startup_spec(Some(contents));
            let c0 = start.next->Some_0;
            let s1 = step_spec(c0, Ok(()));
            let c1 = s1.next->Some_0;
            let s2 = step_spec(c1, Ok(()));
            let live2 = registry_after(registry_after(live, start.action, Ok(())), s1.action, Ok(()));
            &&& c0.kind == ChangeKind::Fallback
            &&& s1.action == ActionView::Register(default_text())
            &&& s2.action == ActionView::Save(default_text())
            &&& live2 == set![default_text()]
            &&& current_after(c1, current_after(c0, current, Ok(())), Ok(())) == default_text()
        }),
{
    assert(Set::<Seq<char>>::empty().insert(default_text()) =~= set![default_text()]);
}

} // verus!
