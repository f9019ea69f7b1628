use vstd::prelude::*;

use crate::command::{CommandView, Commands};
use crate::kbd::{Key, KbdCommand, KbdView};
use crate::mouse::{Axis, Coordinate, Mouse, MouseCommand};
use crate::wait::{Time, WaitCommand};

verus! {

/// How a key or a button is worked.
#[derive(Debug, Clone, Copy, PartialEq, Eq, Structural)]
pub enum Direction {
    Press,
    Release,
    Click,
}

/// One primitive call on the input device; `T` holds the text to type.
#[derive(Debug, Clone, PartialEq, Eq)]
pub enum Action<T> {
    Wait(Time),
    Key(Key, Direction),
    Text(T),
    Button(Mouse, Direction),
    Scroll(i32, Axis),
    Move(i32, i32, Coordinate),
}

impl View for Action<String> {
    type V = Action<Seq<char>>;

    open spec fn view(&self) -> Action<Seq<char>> {
        match self {
            Action::Wait(t) => Action::Wait(*t),
            Action::Key(k, d) => Action::Key(*k, *d),
            Action::Text(s) => Action::Text(s@),
            Action::Button(b, d) => Action::Button(*b, *d),
            Action::Scroll(a, x) => Action::Scroll(*a, *x),
            Action::Move(x, y, c) => Action::Move(*x, *y, *c),
        }
    }
}

/// What the runner of a command does next.
#[derive(Debug, Clone, PartialEq, Eq)]
pub enum Step<T> {
    /// Perform this action and report whether it succeeded.
    Perform(Action<T>),
    /// Every action of the command succeeded.
    Done,
    /// This action failed; the command stops here.
    Failed(Action<T>),
}

impl View for Step<String> {
    type V = Step<Seq<char>>;

    open spec fn view(&self) -> Step<Seq<char>> {
        match self {
            Step::Perform(a) => Step::Perform(a@),
            Step::Done => Step::Done,
            Step::Failed(a) => Step::Failed(a@),
        }
    }
}

/// The primitive calls that carry out a command, in order.
pub open spec fn plan_spec(c: CommandView) -> Seq<Action<Seq<char>>> {
    match c {
        CommandView::Wait(WaitCommand::Time(t)) => seq![Action::Wait(t)],
        CommandView::Kbd(k) => match k {
            KbdView::Press(key) => seq![Action::Key(key, Direction::Press)],
            KbdView::Release(key) => seq![Action::Key(key, Direction::Release)],
            KbdView::Click(key) => seq![Action::Key(key, Direction::Click)],
            KbdView::Type(s) => seq![Action::Text(s)],
        },
        CommandView::Mouse(m) => match m {
            MouseCommand::Press(b) => seq![Action::Button(b, Direction::Press)],
            MouseCommand::Release(b) => seq![Action::Button(b, Direction::Release)],
            MouseCommand::Click(b) => seq![Action::Button(b, Direction::Click)],
            MouseCommand::Double(b) => seq![
                Action::Button(b, Direction::Click),
                Action::Button(b, Direction::Click),
            ],
            MouseCommand::Triple(b) => seq![
                Action::Button(b, Direction::Click),
                Action::Button(b, Direction::Click),
                Action::Button(b, Direction::Click),
            ],
            MouseCommand::Scroll { amount, axis } => seq![Action::Scroll(amount, axis)],
            MouseCommand::Move { x, y, context } => seq![Action::Move(x, y, context)],
        },
    }
}

/// The next step of a plan from action `i` on, where `outcomes[j]` tells whether action
/// `j` succeeded: the first failure ends the plan, and the first action without an
/// outcome is the one to perform.
pub open spec fn step_from(plan: Seq<Action<Seq<char>>>, outcomes: Seq<bool>, i: int) -> Step<
    Seq<char>,
>
    decreases plan.len() - i,
{
    if i < 0 || i >= plan.len() {
        Step::Done
    } else if i >= outcomes.len() {
        Step::Perform(plan[i])
    } else if !outcomes[i] {
        Step::Failed(plan[i])
    } else {
        step_from(plan, outcomes, i + 1)
    }
}

/// The views of a list of actions.
pub open spec fn action_views(s: Seq<Action<String>>) -> Seq<Action<Seq<char>>> {
    s.map_values(|a: Action<String>| a@)
}

/// Once an action of a plan has failed, no later action is performed: from any position
/// `i` up to the failed action `j`, the step is a failure at an action between the two.
pub proof fn lemma_fail_fast(plan: Seq<Action<Seq<char>>>, outcomes: Seq<bool>, i: int, j: int)
    requires
        0 <= i <= j < plan.len(),
        j < outcomes.len(),
        !outcomes[j],
    ensures
        step_from(plan, outcomes, i) matches Step::Failed(_),
        exists|k: int| i <= k <= j && step_from(plan, outcomes, i) == Step::Failed(#[trigger] plan[k]),
    decreases j - i,
{
    if !outcomes[i] {
        assert(step_from(plan, outcomes, i) == Step::Failed(plan[i]));
    } else {
        lemma_fail_fast(plan, outcomes, i + 1, j);
        let k = choose|k: int|
            i + 1 <= k <= j && step_from(plan, outcomes, i + 1) == Step::Failed(#[trigger] plan[k]);
        assert(step_from(plan, outcomes, i) == Step::Failed(plan[k]));
    }
}

/// `mouse double <b>` clicks `b` twice; when the first click fails the second is never
/// performed and the command fails.
pub proof fn lemma_double_click(b: Mouse)
    ensures
        ({
            let p = plan_spec(CommandView::Mouse(MouseCommand::Double(b)));
            let click = Action::<Seq<char>>::Button(b, Direction::Click);
            &&& p == seq![click, click]
            &&& step_from(p, seq![], 0) == Step::Perform(click)
            &&& step_from(p, seq![true], 0) == Step::Perform(click)
            &&& step_from(p, seq![true, true], 0) == Step::<Seq<char>>::Done
            &&& step_from(p, seq![false], 0) == Step::Failed(click)
            &&& step_from(p, seq![true, false], 0) == Step::Failed(click)
        }),
{
    let p = plan_spec(CommandView::Mouse(MouseCommand::Double(b)));
    assert(step_from(p, seq![true], 1) == Step::Perform(p[1]));
    assert(step_from(p, seq![true, true], 2) == Step::<Seq<char>>::Done);
    assert(step_from(p, seq![true, true], 1) == Step::<Seq<char>>::Done);
    assert(step_from(p, seq![true, false], 1) == Step::Failed(p[1]));
}

fn copy_action(a: &Action<String>) -> (r: Action<String>)
    ensures
        r@ == a@,
{
    match a {
        Action::Wait(t) => Action::Wait(*t),
        Action::Key(k, d) => Action::Key(*k, *d),
        Action::Text(s) => Action::Text(s.clone()),
        Action::Button(b, d) => Action::Button(*b, *d),
        Action::Scroll(n, x) => Action::Scroll(*n, *x),
        Action::Move(x, y, c) => Action::Move(*x, *y, *c),
    }
}

impl Commands {
    /// The primitive calls that carry out this command, in order.
    pub fn actions(&self) -> (r: Vec<Action<String>>)
        ensures
            action_views(r@) == plan_spec(self@),
    {
        let r = match self {
            Commands::WAIT(WaitCommand::Time(t)) => vec![Action::Wait(*t)],
            Commands::KBD(k) => match k {
                KbdCommand::Press(key) => vec![Action::Key(*key, Direction::Press)],
                KbdCommand::Release(key) => vec![Action::Key(*key, Direction::Release)],
                KbdCommand::Click(key) => vec![Action::Key(*key, Direction::Click)],
                KbdCommand::Type(s) => vec![Action::Text(s.clone())],
            },
            Commands::MOUSE(m) => match *m {
                MouseCommand::Press(b) => vec![Action::Button(b, Direction::Press)],
                MouseCommand::Release(b) => vec![Action::Button(b, Direction::Release)],
                MouseCommand::Click(b) => vec![Action::Button(b, Direction::Click)],
                MouseCommand::Double(b) => vec![
                    Action::Button(b, Direction::Click),
                    Action::Button(b, Direction::Click),
                ],
                MouseCommand::Triple(b) => vec![
                    Action::Button(b, Direction::Click),
                    Action::Button(b, Direction::Click),
                    Action::Button(b, Direction::Click),
                ],
                MouseCommand::Scroll { amount, axis } => vec![Action::Scroll(amount, axis)],
                MouseCommand::Move { x, y, context } => vec![Action::Move(x, y, context)],
            },
        };
        assert(action_views(r@) =~= plan_spec(self@));
        r
    }

    /// Decides the next step of carrying out this command, given whether each action
    /// performed so far succeeded (`outcomes`, in order). The runner performs the action
    /// of `Step::Perform`, records its outcome and asks again, until `Done` or `Failed`.
    pub fn execute(&self, outcomes: &Vec<bool>) -> (r: Step<String>)
        ensures
            r@ == step_from(plan_spec(self@), outcomes@, 0),
    {
        let plan = self.actions();
        let ghost p = plan_spec(self@);
        let n = plan.len();
        let mut i: usize = 0;
        while i < n
            invariant
                n == plan@.len(),
                action_views(plan@) == p,
                p == plan_spec(self@),
                p.len() == n,
                i <= n,
                step_from(p, outcomes@, i as int) == step_from(p, outcomes@, 0),
            decreases n - i,
        {
            assert(plan@[i as int]@ == p[i as int]);
            if i >= outcomes.len() {
                let a = copy_action(&plan[i]);
                return Step::Perform(a);
            }
            if !outcomes[i] {
                let a = copy_action(&plan[i]);
                return Step::Failed(a);
            }
            i = i + 1;
        }
        Step::Done
    }
}

} // verus!
