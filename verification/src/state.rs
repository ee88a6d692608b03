//! The controller's state: a single signed counter and a run status, with
//! the transition that one observed input causes. The transition is given
//! first as a specification over a mathematical model, then as executable
//! code proved to follow it.

use vstd::prelude::*;

use crate::input::Input;
use crate::input::Key;
use crate::input::KeyKind;
use crate::input::is_down_key;
use crate::input::is_down_press;
use crate::input::is_quit_key;
use crate::input::is_quit_press;
use crate::input::is_up_key;
use crate::input::is_up_press;

verus! {

/// Whether the loop is still running, was quit normally, or stopped on a
/// fatal failure. The process exits 0 after a quit and non-zero after a
/// failure.
#[derive(Clone, Copy, Debug, PartialEq, Eq, Structural)]
pub enum Status {
    Running,
    Quit,
    Failed,
}

/// The mathematical model of the controller's state: an unbounded counter
/// and the run status.
pub struct AppModel {
    pub counter: int,
    pub status: Status,
}

/// The state at startup: counter zero, running.
pub open spec fn init_model() -> AppModel {
    AppModel { counter: 0, status: Status::Running }
}

/// The transition caused by one input. Once the status is no longer
/// `Running` nothing changes any more. While running: a failure stops the
/// loop; a quit press stops it normally; an up press increments and a down
/// press decrements the counter; every other input, including key releases,
/// repeats, unrecognized keys, poll timeouts and non-key events, leaves the
/// state unchanged.
pub open spec fn step(s: AppModel, inp: Input) -> AppModel {
    if s.status != Status::Running {
        s
    } else {
        match inp {
            Input::Failure => AppModel { status: Status::Failed, ..s },
            Input::Key(kind, k) => {
                if kind == KeyKind::Press {
                    if is_quit_key(k) {
                        AppModel { status: Status::Quit, ..s }
                    } else if is_up_key(k) {
                        AppModel { counter: s.counter + 1, ..s }
                    } else if is_down_key(k) {
                        AppModel { counter: s.counter - 1, ..s }
                    } else {
                        s
                    }
                } else {
                    s
                }
            },
            _ => s,
        }
    }
}

/// The state after a whole sequence of inputs, first to last.
pub open spec fn steps(s: AppModel, inputs: Seq<Input>) -> AppModel
    decreases inputs.len(),
{
    if inputs.len() == 0 {
        s
    } else {
        steps(step(s, inputs[0]), inputs.drop_first())
    }
}

/// How many inputs of a sequence press an increment key.
pub open spec fn up_presses(inputs: Seq<Input>) -> int
    decreases inputs.len(),
{
    if inputs.len() == 0 {
        0
    } else {
        (if is_up_press(inputs[0]) {
            1int
        } else {
            0int
        }) + up_presses(inputs.drop_first())
    }
}

/// How many inputs of a sequence press a decrement key.
pub open spec fn down_presses(inputs: Seq<Input>) -> int
    decreases inputs.len(),
{
    if inputs.len() == 0 {
        0
    } else {
        (if is_down_press(inputs[0]) {
            1int
        } else {
            0int
        }) + down_presses(inputs.drop_first())
    }
}

/// Running a sequence of inputs decomposes into running its two halves in
/// order.
pub proof fn lemma_steps_append(s: AppModel, a: Seq<Input>, b: Seq<Input>)
    ensures
        steps(s, a + b) == steps(steps(s, a), b),
    decreases a.len(),
{
    if a.len() == 0 {
        assert(a + b =~= b);
    } else {
        assert((a + b)[0] == a[0]);
        assert((a + b).drop_first() =~= a.drop_first() + b);
        lemma_steps_append(step(s, a[0]), a.drop_first(), b);
    }
}

/// Running one more input after a sequence is one more transition.
pub proof fn lemma_steps_snoc(s: AppModel, p: Seq<Input>, x: Input)
    ensures
        steps(s, p.push(x)) == step(steps(s, p), x),
    decreases p.len(),
{
    if p.len() == 0 {
        assert(p.push(x)[0] == x);
        assert(p.push(x).drop_first() =~= Seq::<Input>::empty());
        assert(steps(s, p.push(x)) == steps(step(s, x), Seq::<Input>::empty()));
        assert(steps(s, p.push(x)) == step(s, x));
        assert(steps(s, p) == s);
    } else {
        assert(p.push(x)[0] == p[0]);
        assert(p.push(x).drop_first() =~= p.drop_first().push(x));
        lemma_steps_snoc(step(s, p[0]), p.drop_first(), x);
    }
}

/// Once the loop has been signaled to terminate, no later input mutates the
/// state: the counter never changes after a quit or a failure.
pub proof fn lemma_terminated_absorbs(s: AppModel, inputs: Seq<Input>)
    requires
        s.status != Status::Running,
    ensures
        steps(s, inputs) == s,
    decreases inputs.len(),
{
    if inputs.len() > 0 {
        lemma_terminated_absorbs(s, inputs.drop_first());
    }
}

/// Pressing a quit key while running terminates the loop within that one
/// transition, without touching the counter.
pub proof fn lemma_quit_terminates(s: AppModel, inp: Input)
    requires
        s.status == Status::Running,
        is_quit_press(inp),
    ensures
        step(s, inp).status == Status::Quit,
        step(s, inp).counter == s.counter,
{
}

/// A key event that is not a press of a recognized key leaves the state
/// exactly as it was.
pub proof fn lemma_unrecognized_key_keeps_state(s: AppModel, kind: KeyKind, k: Key)
    requires
        !(kind == KeyKind::Press && (is_quit_key(k) || is_up_key(k) || is_down_key(k))),
    ensures
        step(s, Input::Key(kind, k)) == s,
{
}

/// A poll timeout or a non-key terminal event leaves the state exactly as
/// it was: in the absence of input the loop only redraws.
pub proof fn lemma_idle_input_keeps_state(s: AppModel)
    ensures
        step(s, Input::Timeout) == s,
        step(s, Input::OtherEvent) == s,
{
}

/// For every sequence of inputs with no quit press and no failure, the
/// controller is still running afterwards and the counter moved by the
/// number of up presses minus the number of down presses.
pub proof fn lemma_counter_counts(s: AppModel, inputs: Seq<Input>)
    requires
        s.status == Status::Running,
        forall|i: int|
            0 <= i < inputs.len() ==> !is_quit_press(#[trigger] inputs[i]) && inputs[i]
                != Input::Failure,
    ensures
        steps(s, inputs).status == Status::Running,
        steps(s, inputs).counter == s.counter + up_presses(inputs) - down_presses(inputs),
    decreases inputs.len(),
{
    if inputs.len() > 0 {
        let rest = inputs.drop_first();
        assert(!is_quit_press(inputs[0]) && inputs[0] != Input::Failure);
        assert forall|i: int|
            0 <= i < rest.len() implies !is_quit_press(#[trigger] rest[i]) && rest[i]
            != Input::Failure by {
            assert(rest[i] == inputs[i + 1]);
        }
        lemma_counter_counts(step(s, inputs[0]), rest);
    }
}

/// Starting from the initial state, a sequence of inputs with no quit press
/// and no failure leaves the counter at the number of up presses minus the
/// number of down presses.
pub proof fn lemma_counter_is_ups_minus_downs(inputs: Seq<Input>)
    requires
        forall|i: int|
            0 <= i < inputs.len() ==> !is_quit_press(#[trigger] inputs[i]) && inputs[i]
                != Input::Failure,
    ensures
        steps(init_model(), inputs).status == Status::Running,
        steps(init_model(), inputs).counter == up_presses(inputs) - down_presses(inputs),
{
    lemma_counter_counts(init_model(), inputs);
}

/// The controller's executable state.
pub struct App {
    counter: i64,
    status: Status,
}

impl View for App {
    type V = AppModel;

    closed spec fn view(&self) -> AppModel {
        AppModel { counter: self.counter as int, status: self.status }
    }
}

impl App {
    /// A controller in the startup state.
    pub fn new() -> (a: App)
        ensures
            a@ == init_model(),
    {
        App { counter: 0, status: Status::Running }
    }

    /// The current counter value.
    pub fn counter(&self) -> (c: i64)
        ensures
            c == self@.counter,
    {
        self.counter
    }

    /// The current run status.
    pub fn status(&self) -> (st: Status)
        ensures
            st == self@.status,
    {
        self.status
    }

    /// Whether the loop should keep going.
    pub fn is_running(&self) -> (b: bool)
        ensures
            b == (self@.status == Status::Running),
    {
        matches!(self.status, Status::Running)
    }

    /// Whether the process should exit with status 0: only after a normal
    /// quit.
    pub fn exit_ok(&self) -> (b: bool)
        ensures
            b == (self@.status == Status::Quit),
    {
        matches!(self.status, Status::Quit)
    }

    /// Apply one observed input. The counter is a machine integer, so the
    /// single step it can take must stay in range.
    pub fn handle(&mut self, inp: Input)
        requires
            old(self)@.counter < i64::MAX,
            old(self)@.counter > i64::MIN,
        ensures
            final(self)@ == step(old(self)@, inp),
    {
        if !matches!(self.status, Status::Running) {
            return ;
        }
        match inp {
            Input::Failure => {
                self.status = Status::Failed;
            },
            Input::Key(kind, k) => {
                if matches!(kind, KeyKind::Press) {
                    match k {
                        Key::Up => {
                            self.counter = self.counter + 1;
                        },
                        Key::Down => {
                            self.counter = self.counter - 1;
                        },
                        Key::Esc => {
                            self.status = Status::Quit;
                        },
                        Key::Character(c) => {
                            if c == 'q' {
                                self.status = Status::Quit;
                            } else if c == 'k' {
                                self.counter = self.counter + 1;
                            } else if c == 'j' {
                                self.counter = self.counter - 1;
                            }
                        },
                        Key::Other => {},
                    }
                }
            },
            _ => {},
        }
    }
}

/// Feed a whole script of inputs to a fresh controller, stopping — as the
/// loop does — as soon as the controller is no longer running. The result
/// is exactly the state that the transition relation assigns to the script:
/// stopping early loses nothing, because a terminated state absorbs every
/// later input.
pub fn run_script(inputs: &Vec<Input>) -> (a: App)
    requires
        inputs@.len() < i64::MAX,
    ensures
        a@ == steps(init_model(), inputs@),
{
    let mut app = App::new();
    let mut i: usize = 0;
    proof {
        assert(inputs@.subrange(0, 0) =~= Seq::<Input>::empty());
        assert(inputs@.subrange(0, inputs@.len() as int) =~= inputs@);
    }
    while i < inputs.len()
        invariant
            i <= inputs@.len(),
            inputs@.len() < i64::MAX,
            inputs@.subrange(0, inputs@.len() as int) == inputs@,
            app@ == steps(init_model(), inputs@.subrange(0, i as int)),
            -(i as int) <= app@.counter <= i as int,
        ensures
            app@ == steps(init_model(), inputs@),
        decreases inputs@.len() - i,
    {
        if !app.is_running() {
            proof {
                let done = inputs@.subrange(0, i as int);
                let left = inputs@.subrange(i as int, inputs@.len() as int);
                assert(done + left =~= inputs@);
                lemma_steps_append(init_model(), done, left);
                lemma_terminated_absorbs(app@, left);
            }
            break ;
        }
        let inp = inputs[i];
        let ghost prev = app@;
        app.handle(inp);
        proof {
            assert(inputs@.subrange(0, i + 1) =~= inputs@.subrange(0, i as int).push(inp));
            lemma_steps_snoc(init_model(), inputs@.subrange(0, i as int), inp);
        }
        i = i + 1;
    }
    app
}

} // verus!
