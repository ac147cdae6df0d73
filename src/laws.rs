use vstd::prelude::*;
use crate::config::{PresentationWindowConfig, WindowState};
use crate::error::WindowError;
use crate::registry::{
    at_most_one, close_step, has_label, index_of, lemma_push_keeps_labels_unique,
    lemma_relabel_keeps_labels_unique, lemma_remove_keeps_labels_unique, open_step, presentation,
    presentation_state, unique_labels, update_step, Entry, WindowRegistry,
};

verus! {

/// One command as it reaches the registry, together with the host's answers
/// to the requests it makes.
pub enum Call {
    Open(PresentationWindowConfig, Result<(), String>),
    Close(Result<(), String>),
    Update(PresentationWindowConfig, Result<(), String>, Result<(), String>),
    IsOpen,
}

/// The registry after one command.
pub open spec fn step(ws: Seq<Entry>, call: Call) -> Seq<Entry> {
    match call {
        Call::Open(config, created) => open_step(ws, config, created).0,
        Call::Close(destroyed) => close_step(ws, destroyed).0,
        Call::Update(config, on_top_set, fullscreen_set) => update_step(
            ws,
            config,
            on_top_set,
            fullscreen_set,
        ).0,
        Call::IsOpen => ws,
    }
}

/// The registry after the commands of `calls`, in order.
pub open spec fn run(ws: Seq<Entry>, calls: Seq<Call>) -> Seq<Entry>
    decreases calls.len(),
{
    if calls.len() == 0 {
        ws
    } else {
        run(step(ws, calls[0]), calls.drop_first())
    }
}

/// Every command keeps window names unique.
pub proof fn lemma_step_keeps_labels_unique(ws: Seq<Entry>, call: Call)
    requires
        unique_labels(ws),
    ensures
        unique_labels(step(ws, call)),
{
    let p = presentation();
    match call {
        Call::Open(config, created) => {
            if !has_label(ws, p) && created is Ok {
                lemma_push_keeps_labels_unique(ws, (p, config.state_spec()));
            }
        },
        Call::Close(destroyed) => {
            if has_label(ws, p) && destroyed is Ok {
                lemma_remove_keeps_labels_unique(ws, index_of(ws, p));
            }
        },
        Call::Update(config, on_top_set, fullscreen_set) => {
            if has_label(ws, p) && on_top_set is Ok {
                let i = index_of(ws, p);
                let s1 = WindowState { always_on_top: config.always_on_top, fullscreen: ws[i].1.fullscreen };
                lemma_relabel_keeps_labels_unique(ws, i, (p, s1));
                lemma_relabel_keeps_labels_unique(ws, i, (p, config.state_spec()));
            }
        },
        Call::IsOpen => {},
    }
}

/// Whatever commands arrive, and whatever the host answers, there is never
/// more than one presentation window, starting from any registry whose
/// window names are unique.
pub proof fn lemma_at_most_one_presentation_window(ws: Seq<Entry>, calls: Seq<Call>)
    requires
        unique_labels(ws),
    ensures
        unique_labels(run(ws, calls)),
        at_most_one(run(ws, calls), presentation()),
    decreases calls.len(),
{
    if calls.len() > 0 {
        lemma_step_keeps_labels_unique(ws, calls[0]);
        lemma_at_most_one_presentation_window(step(ws, calls[0]), calls.drop_first());
    }
}

/// A well-formed registry holds at most one presentation window.
pub proof fn lemma_registry_presentation_unique(r: &WindowRegistry)
    requires
        r.wf(),
    ensures
        at_most_one(r@, presentation()),
{
}

/// A successful `open` leaves the presentation window in place, so a query
/// right after it answers `true`.
pub proof fn lemma_open_then_is_open(
    ws: Seq<Entry>,
    config: PresentationWindowConfig,
    created: Result<(), String>,
)
    ensures
        open_step(ws, config, created).1 is Ok ==> has_label(
            open_step(ws, config, created).0,
            presentation(),
        ),
{
    let p = presentation();
    if !has_label(ws, p) && created is Ok {
        let ws2 = ws.push((p, config.state_spec()));
        assert(ws2[ws.len() as int].0 == p);
    }
}

/// A successful `close` removes the presentation window, so a query right
/// after it answers `false`.
pub proof fn lemma_close_then_not_open(ws: Seq<Entry>, destroyed: Result<(), String>)
    requires
        unique_labels(ws),
    ensures
        close_step(ws, destroyed).1 is Ok ==> !has_label(close_step(ws, destroyed).0, presentation()),
{
    let p = presentation();
    if has_label(ws, p) && destroyed is Ok {
        lemma_remove_keeps_labels_unique(ws, index_of(ws, p));
    }
}

/// `open` while the presentation window exists fails with
/// `WindowAlreadyOpen` and leaves every window as it was, whatever the host
/// would have answered.
pub proof fn lemma_open_when_open_fails(
    ws: Seq<Entry>,
    config: PresentationWindowConfig,
    created: Result<(), String>,
)
    requires
        has_label(ws, presentation()),
    ensures
        open_step(ws, config, created) == (ws, Err::<(), WindowError>(WindowError::WindowAlreadyOpen)),
{
}

/// `close` without a presentation window fails with `WindowNotFound` and
/// changes nothing.
pub proof fn lemma_close_when_absent_fails(ws: Seq<Entry>, destroyed: Result<(), String>)
    requires
        !has_label(ws, presentation()),
    ensures
        close_step(ws, destroyed) == (ws, Err::<(), WindowError>(WindowError::WindowNotFound)),
{
}

/// `update` without a presentation window fails with `WindowNotFound` and
/// changes nothing.
pub proof fn lemma_update_when_absent_fails(
    ws: Seq<Entry>,
    config: PresentationWindowConfig,
    on_top_set: Result<(), String>,
    fullscreen_set: Result<(), String>,
)
    requires
        !has_label(ws, presentation()),
    ensures
        update_step(ws, config, on_top_set, fullscreen_set) == (ws, Err::<(), WindowError>(
            WindowError::WindowNotFound,
        )),
{
}

/// `update` of an existing presentation window with always-on-top and
/// fullscreen both asked for, when the host accepts both settings, succeeds
/// and leaves both flags set, whatever background colour was supplied.
pub proof fn lemma_update_sets_both_flags(
    ws: Seq<Entry>,
    config: PresentationWindowConfig,
)
    requires
        unique_labels(ws),
        has_label(ws, presentation()),
        config.always_on_top,
        config.fullscreen,
    ensures
        update_step(ws, config, Ok(()), Ok(())).1 is Ok,
        presentation_state(update_step(ws, config, Ok(()), Ok(())).0) == Some(
            WindowState { always_on_top: true, fullscreen: true },
        ),
{
    let p = presentation();
    let i = index_of(ws, p);
    let e = (p, config.state_spec());
    let ws2 = ws.update(i, e);
    lemma_relabel_keeps_labels_unique(ws, i, e);
    assert(ws2[i].0 == p);
    assert(has_label(ws2, p));
    let j = index_of(ws2, p);
    assert(ws2[j].0 == ws2[i].0);
}

} // verus!
