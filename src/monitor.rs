use vstd::prelude::*;

verus! {

/// The message returned when the binding refuses to start monitoring.
pub open spec fn start_failed_message() -> Seq<char> {
    "Failed to start HealthKit monitoring"@
}

/// The model of the monitoring state machine.
pub struct MonitorView {
    pub active: bool,
}

/// The state of a freshly built manager.
pub open spec fn initial_view() -> MonitorView {
    MonitorView { active: false }
}

/// Whether a `start` request from `v` must invoke the binding's start entry point.
pub open spec fn start_invokes(v: MonitorView) -> bool {
    !v.active
}

/// Whether a `stop` request from `v` must invoke the binding's stop entry point.
pub open spec fn stop_invokes(v: MonitorView) -> bool {
    v.active
}

/// The state after a `start` request, where `started` is the start entry
/// point's answer if it was invoked.
pub open spec fn start_next(v: MonitorView, started: bool) -> MonitorView {
    if v.active {
        v
    } else {
        MonitorView { active: started }
    }
}

/// Whether a `start` request from `v` succeeds.
pub open spec fn start_ok(v: MonitorView, started: bool) -> bool {
    v.active || started
}

/// The state after a `stop` request.
pub open spec fn stop_next(v: MonitorView) -> MonitorView {
    MonitorView { active: false }
}

/// Owns whether monitoring is active and decides when the binding's start and
/// stop entry points are invoked: only on a change of state. Each request is a
/// decision followed, where the decision says so, by one call to the binding;
/// callers shared between threads make both under one lock.
pub struct HealthKitManager {
    active: bool,
}

impl View for HealthKitManager {
    type V = MonitorView;

    closed spec fn view(&self) -> MonitorView {
        MonitorView { active: self.active }
    }
}

impl HealthKitManager {
    pub fn new() -> (r: HealthKitManager)
        ensures
            r@ == initial_view(),
    {
        HealthKitManager { active: false }
    }

    /// First half of a `start` request: whether the binding's start entry
    /// point must be invoked.
    pub fn needs_start(&self) -> (invoke: bool)
        ensures
            invoke == start_invokes(self@),
    {
        !self.active
    }

    /// Second half of a `start` request. `outcome` is the start entry point's
    /// answer, or `None` where `needs_start` said not to invoke it. An active
    /// manager succeeds unchanged; otherwise the answer decides both the new
    /// state and the result.
    pub fn start_monitoring(&mut self, outcome: Option<bool>) -> (r: Result<(), String>)
        requires
            outcome is None <==> !start_invokes(old(self)@),
        ensures
            outcome is None ==> final(self)@ == old(self)@ && r is Ok,
            outcome matches Some(started) ==> final(self)@ == start_next(old(self)@, started)
                && (r is Ok <==> start_ok(old(self)@, started)),
            r matches Err(e) ==> e@ == start_failed_message(),
    {
        match outcome {
            None => Ok(()),
            Some(started) => {
                if started {
                    self.active = true;
                    Ok(())
                } else {
                    Err("Failed to start HealthKit monitoring".to_owned())
                }
            },
        }
    }

    /// A `stop` request: the state becomes idle, and the result says whether
    /// the binding's stop entry point must now be invoked (only when
    /// monitoring was active).
    pub fn stop_monitoring(&mut self) -> (invoke: bool)
        ensures
            invoke == stop_invokes(old(self)@),
            final(self)@ == stop_next(old(self)@),
    {
        let invoke = self.active;
        self.active = false;
        invoke
    }

    pub fn is_monitoring(&self) -> (r: bool)
        ensures
            r == self@.active,
    {
        self.active
    }
}

/// A request to the state machine, with the start entry point's answer.
pub enum Request {
    Start(bool),
    Stop,
}

/// A call the state machine makes to the binding, with the answer of a start.
pub enum BindingCall {
    Start(bool),
    Stop,
}

/// The state after a sequence of requests on a fresh manager, and the binding
/// calls those requests make, in order.
pub open spec fn run(reqs: Seq<Request>) -> (MonitorView, Seq<BindingCall>)
    decreases reqs.len(),
{
    if reqs.len() == 0 {
        (initial_view(), Seq::empty())
    } else {
        let (v, calls) = run(reqs.drop_last());
        match reqs.last() {
            Request::Start(b) => if start_invokes(v) {
                (start_next(v, b), calls.push(BindingCall::Start(b)))
            } else {
                (start_next(v, b), calls)
            },
            Request::Stop => if stop_invokes(v) {
                (stop_next(v), calls.push(BindingCall::Stop))
            } else {
                (stop_next(v), calls)
            },
        }
    }
}

/// Successful starts minus stops among a sequence of binding calls.
pub open spec fn balance(calls: Seq<BindingCall>) -> int
    decreases calls.len(),
{
    if calls.len() == 0 {
        0
    } else {
        balance(calls.drop_last()) + match calls.last() {
            BindingCall::Start(true) => 1int,
            BindingCall::Start(false) => 0int,
            BindingCall::Stop => -1int,
        }
    }
}

/// Over any sequence of requests on a fresh manager, the binding's successful
/// starts and its stops alternate, beginning with a start: after every prefix
/// of the requests they differ by one exactly when monitoring is active, and
/// are equal otherwise.
pub proof fn binding_calls_alternate(reqs: Seq<Request>)
    ensures
        balance(run(reqs).1) == if run(reqs).0.active { 1int } else { 0int },
    decreases reqs.len(),
{
    if reqs.len() > 0 {
        binding_calls_alternate(reqs.drop_last());
        let (v, calls) = run(reqs.drop_last());
        assert(calls.push(BindingCall::Stop).drop_last() == calls);
        assert(calls.push(BindingCall::Start(true)).drop_last() == calls);
        assert(calls.push(BindingCall::Start(false)).drop_last() == calls);
    }
}

/// After a successful `start`, a second `start` with no `stop` between them
/// does not invoke the start entry point, and succeeds.
pub proof fn start_twice_invokes_start_once(v: MonitorView, first: bool, second: bool)
    requires
        start_ok(v, first),
    ensures
        !start_invokes(start_next(v, first)),
        start_next(start_next(v, first), second) == start_next(v, first),
        start_ok(start_next(v, first), second),
{
}

/// On a manager that was never started, `stop` invokes no stop entry point
/// and leaves it idle.
pub proof fn stop_on_fresh_is_noop()
    ensures
        !stop_invokes(initial_view()),
        stop_next(initial_view()) == initial_view(),
{
}

/// Monitoring is reported active right after a successful `start`, and
/// inactive right after any `stop`.
pub proof fn monitoring_flag_follows_requests(v: MonitorView, started: bool)
    ensures
        start_ok(v, started) ==> start_next(v, started).active,
        !stop_next(v).active,
{
}

/// Two `start` requests that reach an idle manager one after the other (the
/// lock orders concurrent callers) make exactly one call to the start entry
/// point when it succeeds, and both see success.
pub proof fn serialized_starts_invoke_once(first: bool, second: bool)
    requires
        first,
    ensures
        run(seq![Request::Start(first), Request::Start(second)]).1
            == seq![BindingCall::Start(first)],
        start_ok(initial_view(), first),
        start_ok(start_next(initial_view(), first), second),
{
    let reqs = seq![Request::Start(first), Request::Start(second)];
    let one = seq![Request::Start(first)];
    assert(reqs.drop_last() == one);
    assert(one.drop_last() == Seq::<Request>::empty());
    assert(one.last() == Request::Start(first));
    assert(reqs.last() == Request::Start(second));
    assert(run(Seq::<Request>::empty()) == (initial_view(), Seq::<BindingCall>::empty()));
    assert(Seq::<BindingCall>::empty().push(BindingCall::Start(first))
        == seq![BindingCall::Start(first)]);
    assert(run(one) == (start_next(initial_view(), first), seq![BindingCall::Start(first)]));
    assert(run(reqs) == run(one));
}

} // verus!
