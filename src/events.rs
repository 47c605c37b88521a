//! Routing engine events to application callbacks.
//!
//! An event is given as the four things it may carry: a render request, an
//! update tick, a button action and a pointer position. The payload types are
//! the engine's; this module only moves them to the callback they belong to.
use vstd::prelude::*;

verus! {

/// What one event from the engine carries.
#[derive(Clone, Debug, PartialEq)]
pub struct EventParts<R, U, B, M> {
    pub render: Option<R>,
    pub update: Option<U>,
    pub button: Option<B>,
    pub pointer_move: Option<M>,
}

/// One call into the application.
#[derive(Clone, Debug, PartialEq)]
pub enum Callback<R, U, B, M> {
    /// Open a drawing scope for the event, draw in it, then close it.
    Draw(R),
    /// Advance the application by an update tick.
    Update(U),
    /// Hand over a button or key action.
    Input(B),
    /// Hand over a pointer position.
    PointerMove(M),
}

/// The callbacks that one event leads to, in the order they are made:
/// drawing, update, input, pointer movement.
pub open spec fn callbacks_of<R, U, B, M>(e: EventParts<R, U, B, M>) -> Seq<Callback<R, U, B, M>> {
    (match e.render { Some(r) => seq![Callback::Draw(r)], None => Seq::empty() })
        + (match e.update { Some(u) => seq![Callback::Update(u)], None => Seq::empty() })
        + (match e.button { Some(b) => seq![Callback::Input(b)], None => Seq::empty() })
        + (match e.pointer_move { Some(m) => seq![Callback::PointerMove(m)], None => Seq::empty() })
}

/// The callbacks that a run of events leads to, event after event.
pub open spec fn trace<R, U, B, M>(events: Seq<EventParts<R, U, B, M>>) -> Seq<Callback<R, U, B, M>>
    decreases events.len(),
{
    if events.len() == 0 {
        Seq::empty()
    } else {
        trace(events.drop_last()) + callbacks_of(events.last())
    }
}

/// The callbacks for `e`, in order.
pub fn dispatch<R, U, B, M>(e: EventParts<R, U, B, M>) -> (r: Vec<Callback<R, U, B, M>>)
    ensures
        r@ == callbacks_of(e),
{
    let ghost g = e;
    let mut r: Vec<Callback<R, U, B, M>> = Vec::new();
    if let Some(x) = e.render {
        r.push(Callback::Draw(x));
    }
    if let Some(x) = e.update {
        r.push(Callback::Update(x));
    }
    if let Some(x) = e.button {
        r.push(Callback::Input(x));
    }
    if let Some(x) = e.pointer_move {
        r.push(Callback::PointerMove(x));
    }
    assert(r@ =~= callbacks_of(g));
    r
}

/// Model of a [`Dispatcher`]: whether its loop runs, and the events it has
/// routed so far.
pub ghost struct DispatcherModel<R, U, B, M> {
    pub running: bool,
    pub events: Seq<EventParts<R, U, B, M>>,
}

/// The callbacks a dispatcher in state `d` has made.
pub open spec fn issued<R, U, B, M>(d: DispatcherModel<R, U, B, M>) -> Seq<Callback<R, U, B, M>> {
    trace(d.events)
}

/// The state after the engine answers a request for the next event with
/// `next`, `None` meaning that no event will come any more.
pub open spec fn step_model<R, U, B, M>(
    d: DispatcherModel<R, U, B, M>,
    next: Option<EventParts<R, U, B, M>>,
) -> DispatcherModel<R, U, B, M> {
    if !d.running {
        d
    } else {
        match next {
            None => DispatcherModel { running: false, events: d.events },
            Some(e) => DispatcherModel { running: true, events: d.events.push(e) },
        }
    }
}

/// The state after the engine gives the answers `nexts`, one after another.
pub open spec fn run_model<R, U, B, M>(
    d: DispatcherModel<R, U, B, M>,
    nexts: Seq<Option<EventParts<R, U, B, M>>>,
) -> DispatcherModel<R, U, B, M>
    decreases nexts.len(),
{
    if nexts.len() == 0 {
        d
    } else {
        run_model(step_model(d, nexts[0]), nexts.drop_first())
    }
}

/// A source that yields each of `events` in turn.
pub open spec fn arrivals<R, U, B, M>(events: Seq<EventParts<R, U, B, M>>) -> Seq<Option<EventParts<R, U, B, M>>> {
    Seq::new(events.len(), |i: int| Some(events[i]))
}

/// The state of a loop that has not started: running, nothing routed.
pub open spec fn fresh<R, U, B, M>() -> DispatcherModel<R, U, B, M> {
    DispatcherModel { running: true, events: Seq::empty() }
}

/// The event loop: routes each event the engine yields to its callbacks until
/// the engine has no event left.
///
/// The caller fetches the next event while [`Dispatcher::is_running`] holds,
/// hands it to [`Dispatcher::step`] and makes the callbacks it returns.
pub struct Dispatcher<R, U, B, M> {
    running: bool,
    events: Ghost<Seq<EventParts<R, U, B, M>>>,
}

impl<R, U, B, M> View for Dispatcher<R, U, B, M> {
    type V = DispatcherModel<R, U, B, M>;

    closed spec fn view(&self) -> DispatcherModel<R, U, B, M> {
        DispatcherModel { running: self.running, events: self.events@ }
    }
}

impl<R, U, B, M> Dispatcher<R, U, B, M> {
    /// A loop that runs and has routed nothing yet.
    pub fn new() -> (d: Self)
        ensures
            d@ == fresh::<R, U, B, M>(),
    {
        Dispatcher { running: true, events: Ghost(Seq::empty()) }
    }

    /// Whether the engine may still yield events.
    pub fn is_running(&self) -> (r: bool)
        ensures
            r == self@.running,
    {
        self.running
    }

    /// Takes the engine's answer to a request for the next event, `None`
    /// once the source is exhausted, and returns the callbacks to make for
    /// it, in order.
    pub fn step(&mut self, next: Option<EventParts<R, U, B, M>>) -> (r: Vec<Callback<R, U, B, M>>)
        ensures
            final(self)@ == step_model(old(self)@, next),
            r@ == (match next {
                Some(e) if old(self)@.running => callbacks_of(e),
                _ => Seq::empty(),
            }),
            issued(final(self)@) == issued(old(self)@) + r@,
    {
        if !self.running {
            return Vec::new();
        }
        match next {
            None => {
                self.running = false;
                Vec::new()
            },
            Some(e) => {
                let ghost before = self.events@;
                self.events = Ghost(self.events@.push(e));
                proof {
                    assert(self.events@.drop_last() =~= before);
                }
                dispatch(e)
            },
        }
    }
}

/// A source that yields `events` and then no more, given to a fresh loop,
/// has every event routed, in order, and the loop stopped: the callbacks made
/// are exactly those of each event in turn.
pub proof fn lemma_run_routes_each_event<R, U, B, M>(events: Seq<EventParts<R, U, B, M>>)
    ensures
        run_model(fresh::<R, U, B, M>(), arrivals(events).push(None))
            == (DispatcherModel { running: false, events }),
        issued(run_model(fresh::<R, U, B, M>(), arrivals(events).push(None))) == trace(events),
{
    lemma_run_arrivals(fresh::<R, U, B, M>(), events, seq![None]);
    assert(arrivals(events).push(None) =~= arrivals(events) + seq![None]);
    assert(Seq::<EventParts<R, U, B, M>>::empty() + events =~= events);
    let last = DispatcherModel { running: true, events };
    assert(seq![None::<EventParts<R, U, B, M>>].drop_first() =~= Seq::empty());
    assert(run_model(step_model(last, None), Seq::empty()) == step_model(last, None));
}

/// A running loop that is handed `events` routes each of them, in order.
proof fn lemma_run_arrivals<R, U, B, M>(
    d: DispatcherModel<R, U, B, M>,
    events: Seq<EventParts<R, U, B, M>>,
    rest: Seq<Option<EventParts<R, U, B, M>>>,
)
    requires
        d.running,
    ensures
        run_model(d, arrivals(events) + rest)
            == run_model(DispatcherModel { running: true, events: d.events + events }, rest),
    decreases events.len(),
{
    if events.len() == 0 {
        assert(arrivals(events) + rest =~= rest);
        assert(d.events + events =~= d.events);
    } else {
        let next = step_model(d, Some(events[0]));
        let tail = events.drop_first();
        assert((arrivals(events) + rest).drop_first() =~= arrivals(tail) + rest);
        assert((arrivals(events) + rest)[0] == Some(events[0]));
        lemma_run_arrivals(next, tail, rest);
        assert(next.events + tail =~= d.events + events);
    }
}

/// Once the source is exhausted the loop stops, makes no callback for the
/// exhaustion, and whatever it is handed afterwards changes nothing.
pub proof fn lemma_exhausted_source_ends_loop<R, U, B, M>(
    d: DispatcherModel<R, U, B, M>,
    later: Seq<Option<EventParts<R, U, B, M>>>,
)
    ensures
        !step_model(d, None).running,
        issued(step_model(d, None)) == issued(d),
        run_model(step_model(d, None), later) == step_model(d, None),
    decreases later.len(),
{
    if later.len() > 0 {
        let stopped = step_model(d, None);
        assert(step_model(stopped, later[0]) == stopped);
        lemma_exhausted_source_ends_loop(d, later.drop_first());
    }
}

/// The number of events that carry a render request.
pub open spec fn render_count<R, U, B, M>(events: Seq<EventParts<R, U, B, M>>) -> nat
    decreases events.len(),
{
    if events.len() == 0 {
        0
    } else {
        render_count(events.drop_last()) + if events.last().render is Some { 1nat } else { 0nat }
    }
}

/// The number of drawing scopes among `callbacks`, each opened and closed once.
pub open spec fn scope_count<R, U, B, M>(callbacks: Seq<Callback<R, U, B, M>>) -> nat
    decreases callbacks.len(),
{
    if callbacks.len() == 0 {
        0
    } else {
        scope_count(callbacks.drop_last()) + if callbacks.last() is Draw { 1nat } else { 0nat }
    }
}

proof fn lemma_scope_count_append<R, U, B, M>(a: Seq<Callback<R, U, B, M>>, b: Seq<Callback<R, U, B, M>>)
    ensures
        scope_count(a + b) == scope_count(a) + scope_count(b),
    decreases b.len(),
{
    if b.len() == 0 {
        assert(a + b =~= a);
    } else {
        assert((a + b).drop_last() =~= a + b.drop_last());
        lemma_scope_count_append(a, b.drop_last());
    }
}

/// Each event that carries a render request gets exactly one drawing scope,
/// whatever the draw callback does, and no other event gets one.
pub proof fn lemma_one_scope_per_render<R, U, B, M>(events: Seq<EventParts<R, U, B, M>>)
    ensures
        scope_count(trace(events)) == render_count(events),
    decreases events.len(),
{
    if events.len() > 0 {
        let e = events.last();
        lemma_one_scope_per_render(events.drop_last());
        let draw: Seq<Callback<R, U, B, M>> = match e.render { Some(r) => seq![Callback::Draw(r)], None => Seq::empty() };
        let upd: Seq<Callback<R, U, B, M>> = match e.update { Some(u) => seq![Callback::Update(u)], None => Seq::empty() };
        let inp: Seq<Callback<R, U, B, M>> = match e.button { Some(x) => seq![Callback::Input(x)], None => Seq::empty() };
        let mv: Seq<Callback<R, U, B, M>> = match e.pointer_move { Some(m) => seq![Callback::PointerMove(m)], None => Seq::empty() };
        lemma_scope_count_append(trace(events.drop_last()), callbacks_of(e));
        lemma_scope_count_append(draw + upd + inp, mv);
        lemma_scope_count_append(draw + upd, inp);
        lemma_scope_count_append(draw, upd);
        assert(scope_count(draw) == if e.render is Some { 1nat } else { 0nat }) by {
            if e.render is Some {
                assert(draw.drop_last() =~= Seq::<Callback<R, U, B, M>>::empty());
                assert(scope_count(draw.drop_last()) == 0);
            }
        }
        assert(scope_count(upd) == 0) by {
            if e.update is Some {
                assert(upd.drop_last() =~= Seq::<Callback<R, U, B, M>>::empty());
                assert(scope_count(upd.drop_last()) == 0);
            }
        }
        assert(scope_count(inp) == 0) by {
            if e.button is Some {
                assert(inp.drop_last() =~= Seq::<Callback<R, U, B, M>>::empty());
                assert(scope_count(inp.drop_last()) == 0);
            }
        }
        assert(scope_count(mv) == 0) by {
            if e.pointer_move is Some {
                assert(mv.drop_last() =~= Seq::<Callback<R, U, B, M>>::empty());
                assert(scope_count(mv.drop_last()) == 0);
            }
        }
    }
}

} // verus!
