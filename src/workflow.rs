use vstd::prelude::*;

verus! {

/// The spans that the workflow opens.
#[derive(Clone, Copy, Debug, PartialEq, Eq, Structural)]
pub enum SpanName {
    Test,
    DoSomething,
    Aaa,
    Bbb,
    Ccc,
    Ddd,
    Eee,
    Fff,
}

/// The messages that the workflow logs.
#[derive(Clone, Copy, Debug, PartialEq, Eq, Structural)]
pub enum Message {
    TraceBbb,
    TraceCcc,
}

/// One entry of a plan: open a span inside the innermost open one, close the
/// innermost open span, wait, or log a message in the innermost open span.
#[derive(Clone, Copy, Debug, PartialEq, Eq, Structural)]
pub enum Step {
    Open(SpanName),
    Close,
    Sleep(u64),
    Log(Message),
}

/// What the runner is to do next. A close names the span that it ends.
#[derive(Clone, Copy, Debug, PartialEq, Eq, Structural)]
pub enum Action {
    Open(SpanName),
    Close(SpanName),
    Sleep(u64),
    Log(Message),
}

/// The stack of open spans after the steps of `steps` from index `i` on run
/// from `open`, innermost last; `None` where a step closes a span while none
/// is open.
pub open spec fn run(steps: Seq<Step>, i: int, open: Seq<SpanName>) -> Option<Seq<SpanName>>
    decreases steps.len() - i,
{
    if i < 0 || i >= steps.len() {
        Some(open)
    } else {
        match steps[i] {
            Step::Open(n) => run(steps, i + 1, open.push(n)),
            Step::Close => if open.len() == 0 {
                None
            } else {
                run(steps, i + 1, open.drop_last())
            },
            _ => run(steps, i + 1, open),
        }
    }
}

/// A plan is well nested when it never closes a span that is not open and
/// leaves none open at its end.
pub open spec fn well_nested(steps: Seq<Step>) -> bool {
    run(steps, 0, Seq::empty()) == Some(Seq::<SpanName>::empty())
}

/// The action that `step` stands for while `open` are the open spans.
pub open spec fn action_of(step: Step, open: Seq<SpanName>) -> Action {
    match step {
        Step::Open(n) => Action::Open(n),
        Step::Close => Action::Close(open.last()),
        Step::Sleep(ms) => Action::Sleep(ms),
        Step::Log(m) => Action::Log(m),
    }
}

/// The open spans after `step`, from `open`.
pub open spec fn open_after(step: Step, open: Seq<SpanName>) -> Seq<SpanName> {
    match step {
        Step::Open(n) => open.push(n),
        Step::Close => open.drop_last(),
        _ => open,
    }
}

/// Tells whether `steps` is well nested.
pub fn is_well_nested(steps: &Vec<Step>) -> (r: bool)
    ensures
        r == well_nested(steps@),
{
    let mut open: Vec<SpanName> = Vec::new();
    let mut i: usize = 0;
    assert(open@ =~= Seq::<SpanName>::empty());
    while i < steps.len()
        invariant
            i <= steps@.len(),
            run(steps@, 0, Seq::empty()) == run(steps@, i as int, open@),
        decreases steps@.len() - i,
    {
        match steps[i] {
            Step::Open(n) => {
                open.push(n);
            },
            Step::Close => {
                if open.len() == 0 {
                    return false;
                }
                open.pop();
            },
            _ => {},
        }
        i = i + 1;
    }
    if open.len() == 0 {
        assert(open@ =~= Seq::<SpanName>::empty());
    }
    open.len() == 0
}

/// The plan of the demonstration: the `test` span around `do_something`,
/// which logs, then waits 500 ms in `bbb` inside `aaa`, logs, waits twice
/// 250 ms in `ddd` and `eee` inside `ccc` with a log between, and ends with
/// 250 ms in `fff`.
pub open spec fn demo_plan() -> Seq<Step> {
    seq![
        Step::Open(SpanName::Test),
        Step::Open(SpanName::DoSomething),
        Step::Log(Message::TraceBbb),
        Step::Open(SpanName::Aaa),
        Step::Open(SpanName::Bbb),
        Step::Sleep(500),
        Step::Close,
        Step::Log(Message::TraceBbb),
        Step::Open(SpanName::Ccc),
        Step::Open(SpanName::Ddd),
        Step::Sleep(250),
        Step::Close,
        Step::Log(Message::TraceCcc),
        Step::Open(SpanName::Eee),
        Step::Sleep(250),
        Step::Close,
        Step::Close,
        Step::Close,
        Step::Open(SpanName::Fff),
        Step::Sleep(250),
        Step::Close,
        Step::Close,
        Step::Close,
    ]
}

/// The sum of the waits of the steps of `steps` from index `i` on, in
/// milliseconds.
pub open spec fn total_sleep_ms(steps: Seq<Step>, i: int) -> nat
    decreases steps.len() - i,
{
    if i < 0 || i >= steps.len() {
        0
    } else {
        let rest = total_sleep_ms(steps, i + 1);
        match steps[i] {
            Step::Sleep(ms) => ms as nat + rest,
            _ => rest,
        }
    }
}

/// The demonstration plan is well nested, and waits 1250 ms in all.
pub proof fn lemma_demo_plan()
    ensures
        well_nested(demo_plan()),
        total_sleep_ms(demo_plan(), 0) == 1250,
{
    let p = demo_plan();
    let s0 = Seq::<SpanName>::empty();
    let s1 = s0.push(SpanName::Test);
    assert(run(p, 0, s0) == run(p, 1, s1));
    let s2 = s1.push(SpanName::DoSomething);
    assert(run(p, 1, s1) == run(p, 2, s2));
    assert(run(p, 2, s2) == run(p, 3, s2));
    let s3 = s2.push(SpanName::Aaa);
    assert(run(p, 3, s2) == run(p, 4, s3));
    let s4 = s3.push(SpanName::Bbb);
    assert(run(p, 4, s3) == run(p, 5, s4));
    assert(run(p, 5, s4) == run(p, 6, s4));
    assert(s4.drop_last() =~= s3);
    assert(run(p, 6, s4) == run(p, 7, s3));
    assert(run(p, 7, s3) == run(p, 8, s3));
    let s5 = s3.push(SpanName::Ccc);
    assert(run(p, 8, s3) == run(p, 9, s5));
    let s6 = s5.push(SpanName::Ddd);
    assert(run(p, 9, s5) == run(p, 10, s6));
    assert(run(p, 10, s6) == run(p, 11, s6));
    assert(s6.drop_last() =~= s5);
    assert(run(p, 11, s6) == run(p, 12, s5));
    assert(run(p, 12, s5) == run(p, 13, s5));
    let s7 = s5.push(SpanName::Eee);
    assert(run(p, 13, s5) == run(p, 14, s7));
    assert(run(p, 14, s7) == run(p, 15, s7));
    assert(s7.drop_last() =~= s5);
    assert(run(p, 15, s7) == run(p, 16, s5));
    assert(s5.drop_last() =~= s3);
    assert(run(p, 16, s5) == run(p, 17, s3));
    assert(s3.drop_last() =~= s2);
    assert(run(p, 17, s3) == run(p, 18, s2));
    let s8 = s2.push(SpanName::Fff);
    assert(run(p, 18, s2) == run(p, 19, s8));
    assert(run(p, 19, s8) == run(p, 20, s8));
    assert(s8.drop_last() =~= s2);
    assert(run(p, 20, s8) == run(p, 21, s2));
    assert(s2.drop_last() =~= s1);
    assert(run(p, 21, s2) == run(p, 22, s1));
    assert(s1.drop_last() =~= s0);
    assert(run(p, 22, s1) == run(p, 23, s0));
    assert(run(p, 23, s0) == Some(s0));
    assert(total_sleep_ms(p, 23) == 0);
    assert(total_sleep_ms(p, 22) == 0);
    assert(total_sleep_ms(p, 21) == 0);
    assert(total_sleep_ms(p, 20) == 0);
    assert(total_sleep_ms(p, 19) == 250);
    assert(total_sleep_ms(p, 18) == 250);
    assert(total_sleep_ms(p, 17) == 250);
    assert(total_sleep_ms(p, 16) == 250);
    assert(total_sleep_ms(p, 15) == 250);
    assert(total_sleep_ms(p, 14) == 500);
    assert(total_sleep_ms(p, 13) == 500);
    assert(total_sleep_ms(p, 12) == 500);
    assert(total_sleep_ms(p, 11) == 500);
    assert(total_sleep_ms(p, 10) == 750);
    assert(total_sleep_ms(p, 9) == 750);
    assert(total_sleep_ms(p, 8) == 750);
    assert(total_sleep_ms(p, 7) == 750);
    assert(total_sleep_ms(p, 6) == 750);
    assert(total_sleep_ms(p, 5) == 1250);
    assert(total_sleep_ms(p, 4) == 1250);
    assert(total_sleep_ms(p, 3) == 1250);
    assert(total_sleep_ms(p, 2) == 1250);
    assert(total_sleep_ms(p, 1) == 1250);
    assert(total_sleep_ms(p, 0) == 1250);
}

/// Builds the demonstration plan.
pub fn demo_script() -> (r: Vec<Step>)
    ensures
        r@ == demo_plan(),
{
    let r = vec![
        Step::Open(SpanName::Test),
        Step::Open(SpanName::DoSomething),
        Step::Log(Message::TraceBbb),
        Step::Open(SpanName::Aaa),
        Step::Open(SpanName::Bbb),
        Step::Sleep(500),
        Step::Close,
        Step::Log(Message::TraceBbb),
        Step::Open(SpanName::Ccc),
        Step::Open(SpanName::Ddd),
        Step::Sleep(250),
        Step::Close,
        Step::Log(Message::TraceCcc),
        Step::Open(SpanName::Eee),
        Step::Sleep(250),
        Step::Close,
        Step::Close,
        Step::Close,
        Step::Open(SpanName::Fff),
        Step::Sleep(250),
        Step::Close,
        Step::Close,
        Step::Close,
    ];
    assert(r@ =~= demo_plan());
    r
}

/// Walks a well-nested plan one step at a time, keeping the stack of open
/// spans so that each close can name the span that it ends.
pub struct Runner {
    steps: Vec<Step>,
    next: usize,
    open: Vec<SpanName>,
}

impl Runner {
    /// The plan being walked.
    pub closed spec fn plan(&self) -> Seq<Step> {
        self.steps@
    }

    /// Index of the next step to hand out.
    pub closed spec fn position(&self) -> int {
        self.next as int
    }

    /// The spans opened and not yet closed, innermost last.
    pub closed spec fn open_spans(&self) -> Seq<SpanName> {
        self.open@
    }

    /// The position lies within the plan, and the rest of the plan runs from
    /// the open spans to none, never closing a span that is not open.
    pub open spec fn wf(&self) -> bool {
        &&& 0 <= self.position() <= self.plan().len()
        &&& run(self.plan(), self.position(), self.open_spans()) == Some(
            Seq::<SpanName>::empty(),
        )
    }

    /// A runner at the start of `steps`; `None` where `steps` is not well
    /// nested.
    pub fn new(steps: Vec<Step>) -> (r: Option<Runner>)
        ensures
            r.is_some() == well_nested(steps@),
            r matches Some(runner) ==> {
                &&& runner.wf()
                &&& runner.plan() == steps@
                &&& runner.position() == 0
                &&& runner.open_spans() == Seq::<SpanName>::empty()
            },
    {
        if is_well_nested(&steps) {
            let runner = Runner { steps, next: 0, open: Vec::new() };
            assert(runner.open_spans() =~= Seq::<SpanName>::empty());
            Some(runner)
        } else {
            None
        }
    }

    /// A runner at the start of the demonstration plan.
    pub fn demo() -> (r: Runner)
        ensures
            r.wf(),
            r.plan() == demo_plan(),
            r.position() == 0,
            r.open_spans() == Seq::<SpanName>::empty(),
    {
        proof {
            lemma_demo_plan();
        }
        let runner = Runner { steps: demo_script(), next: 0, open: Vec::new() };
        assert(runner.open_spans() =~= Seq::<SpanName>::empty());
        runner
    }

    /// Hands out the action of the next step and moves past it; `None` once
    /// the plan is done. A close always finds a span open and names the
    /// innermost one.
    pub fn next_action(&mut self) -> (r: Option<Action>)
        requires
            old(self).wf(),
        ensures
            final(self).wf(),
            final(self).plan() == old(self).plan(),
            old(self).position() < old(self).plan().len() ==> {
                let step = old(self).plan()[old(self).position()];
                &&& r == Some(action_of(step, old(self).open_spans()))
                &&& final(self).position() == old(self).position() + 1
                &&& final(self).open_spans() == open_after(step, old(self).open_spans())
                &&& step == Step::Close ==> old(self).open_spans().len() > 0
            },
            old(self).position() == old(self).plan().len() ==> {
                &&& r.is_none()
                &&& final(self).position() == old(self).position()
                &&& final(self).open_spans() == old(self).open_spans()
            },
    {
        if self.next >= self.steps.len() {
            return None;
        }
        let step = self.steps[self.next];
        let action = match step {
            Step::Open(n) => {
                self.open.push(n);
                Action::Open(n)
            },
            Step::Close => {
                let n = self.open.pop().unwrap();
                Action::Close(n)
            },
            Step::Sleep(ms) => Action::Sleep(ms),
            Step::Log(m) => Action::Log(m),
        };
        self.next = self.next + 1;
        Some(action)
    }

    /// Tells whether every step has been handed out; by then no span is open.
    pub fn is_finished(&self) -> (r: bool)
        requires
            self.wf(),
        ensures
            r == (self.position() == self.plan().len()),
            r ==> self.open_spans().len() == 0,
    {
        self.next >= self.steps.len()
    }
}

} // verus!
