//! The credential injection plan: the exact ordered sequence of synthetic
//! input steps that enters a username and password into the client's login
//! form.  The plan is computed and pinned down here; the binary merely plays
//! it back.  Injection is a one-way side channel — nothing confirms that the
//! target field received the keystrokes — so correctness of the *sequence*
//! is all that can be promised.

use vstd::prelude::*;

verus! {

/// One synthetic input step, executed in order by the binary.
#[derive(Clone, Copy, PartialEq, Eq, Structural, Debug)]
pub enum InputCommand {
    /// Bring the client window to the front and give it focus.
    FocusWindow,
    /// Move the pointer to absolute screen coordinates.
    MoveMouse { x: i32, y: i32 },
    /// Left mouse click at the current pointer position.
    ClickLeft,
    /// Type one character.
    TypeChar { c: char },
    /// Advance to the next form field.
    PressTab,
    /// Submit the form.
    PressReturn,
    /// Pause between steps.
    SleepMs { ms: u64 },
}

/// A window's bounding rectangle in screen coordinates.
#[derive(Clone, Copy, PartialEq, Eq, Structural, Debug)]
pub struct WindowRect {
    pub left: i32,
    pub top: i32,
    pub right: i32,
    pub bottom: i32,
}

impl WindowRect {
    /// The rectangle does not fold over itself.
    pub open spec fn wf(self) -> bool {
        self.left <= self.right && self.top <= self.bottom
    }
}

/// Horizontal click target: 15% of the window width in from the left edge,
/// aiming at the username field.
pub open spec fn spec_click_x(r: WindowRect) -> int {
    r.left + (r.right - r.left) * 15 / 100
}

/// Vertical click target: 30% of the window height down from the top edge.
pub open spec fn spec_click_y(r: WindowRect) -> int {
    r.top + (r.bottom - r.top) * 30 / 100
}

/// The two input steps that type one character: the keystroke, then the
/// fixed pause.
pub open spec fn typed_pair(c: char) -> Seq<InputCommand> {
    seq![InputCommand::TypeChar { c }, InputCommand::SleepMs { ms: 5 }]
}

/// The input steps that type `s` character by character, pausing after each.
pub open spec fn typed_keys(s: Seq<char>) -> Seq<InputCommand>
    decreases s.len(),
{
    if s.len() == 0 {
        Seq::<InputCommand>::empty()
    } else {
        typed_pair(s[0]) + typed_keys(s.skip(1))
    }
}

/// Typing one more character appends exactly one keystroke and one pause.
pub proof fn lemma_typed_keys_push(s: Seq<char>, c: char)
    ensures
        typed_keys(s.push(c)) =~= typed_keys(s) + typed_pair(c),
    decreases s.len(),
{
    reveal_with_fuel(typed_keys, 3);
    if s.len() == 0 {
        assert(s.push(c)[0] == c);
        assert(s.push(c).skip(1) =~= Seq::<char>::empty());
        assert(typed_keys(s.push(c)) =~= typed_pair(c));
        assert(typed_keys(s) + typed_pair(c) =~= typed_pair(c));
    } else {
        assert(s.push(c)[0] == s[0]);
        assert(s.push(c).skip(1) =~= s.skip(1).push(c));
        lemma_typed_keys_push(s.skip(1), c);
        assert(typed_keys(s.push(c)) == typed_pair(s[0]) + typed_keys(s.skip(1).push(c)));
        assert(typed_pair(s[0]) + (typed_keys(s.skip(1)) + typed_pair(c)) =~= (typed_pair(s[0])
            + typed_keys(s.skip(1))) + typed_pair(c));
    }
}

/// The whole injection plan: focus the window, click the username field,
/// type the username, tab, type the password, submit — with the fixed pauses
/// between steps.
pub open spec fn spec_injection_plan(r: WindowRect, user: Seq<char>, pass: Seq<char>) -> Seq<
    InputCommand,
> {
    seq![
        InputCommand::FocusWindow,
        InputCommand::SleepMs { ms: 500 },
        InputCommand::MoveMouse { x: spec_click_x(r) as i32, y: spec_click_y(r) as i32 },
        InputCommand::SleepMs { ms: 50 },
        InputCommand::ClickLeft,
        InputCommand::SleepMs { ms: 200 },
    ] + typed_keys(user) + seq![
        InputCommand::SleepMs { ms: 100 },
        InputCommand::PressTab,
        InputCommand::SleepMs { ms: 100 },
    ] + typed_keys(pass) + seq![
        InputCommand::SleepMs { ms: 100 },
        InputCommand::PressReturn,
        InputCommand::SleepMs { ms: 1000 },
    ]
}

/// The click target lies inside the window.
pub proof fn lemma_click_target_inside(r: WindowRect)
    requires
        r.wf(),
    ensures
        r.left <= spec_click_x(r) <= r.right,
        r.top <= spec_click_y(r) <= r.bottom,
{
    let w = r.right - r.left;
    let h = r.bottom - r.top;
    assert(0 <= w * 15 / 100 <= w) by (nonlinear_arith)
        requires
            w >= 0,
    ;
    assert(0 <= h * 30 / 100 <= h) by (nonlinear_arith)
        requires
            h >= 0,
    ;
}

fn type_string(out: &mut Vec<InputCommand>, s: &str)
    ensures
        final(out)@ == old(out)@ + typed_keys(s@),
{
    let n = s.unicode_len();
    let mut i: usize = 0;
    proof {
        assert(old(out)@ + typed_keys(s@.take(0)) =~= old(out)@);
    }
    while i < n
        invariant
            n == s@.len(),
            i <= n,
            out@ == old(out)@ + typed_keys(s@.take(i as int)),
        decreases n - i,
    {
        let c = s.get_char(i);
        out.push(InputCommand::TypeChar { c });
        out.push(InputCommand::SleepMs { ms: 5 });
        proof {
            assert(s@.take(i + 1) =~= s@.take(i as int).push(s@[i as int]));
            lemma_typed_keys_push(s@.take(i as int), s@[i as int]);
            assert(out@ =~= old(out)@ + typed_keys(s@.take(i + 1)));
        }
        i += 1;
    }
    proof {
        assert(s@.take(n as int) =~= s@);
    }
}

/// Build the injection plan for the given window rectangle and credentials.
pub fn injection_plan(r: &WindowRect, username: &str, password: &str) -> (plan: Vec<InputCommand>)
    requires
        r.wf(),
    ensures
        plan@ == spec_injection_plan(*r, username@, password@),
{
    proof {
        lemma_click_target_inside(*r);
    }
    let w64: i64 = r.right as i64 - r.left as i64;
    let h64: i64 = r.bottom as i64 - r.top as i64;
    let x = (r.left as i64 + w64 * 15 / 100) as i32;
    let y = (r.top as i64 + h64 * 30 / 100) as i32;
    let mut plan: Vec<InputCommand> = Vec::new();
    plan.push(InputCommand::FocusWindow);
    plan.push(InputCommand::SleepMs { ms: 500 });
    plan.push(InputCommand::MoveMouse { x, y });
    plan.push(InputCommand::SleepMs { ms: 50 });
    plan.push(InputCommand::ClickLeft);
    plan.push(InputCommand::SleepMs { ms: 200 });
    let ghost head = plan@;
    proof {
        assert(head =~= seq![
            InputCommand::FocusWindow,
            InputCommand::SleepMs { ms: 500 },
            InputCommand::MoveMouse { x: spec_click_x(*r) as i32, y: spec_click_y(*r) as i32 },
            InputCommand::SleepMs { ms: 50 },
            InputCommand::ClickLeft,
            InputCommand::SleepMs { ms: 200 },
        ]);
    }
    type_string(&mut plan, username);
    plan.push(InputCommand::SleepMs { ms: 100 });
    plan.push(InputCommand::PressTab);
    plan.push(InputCommand::SleepMs { ms: 100 });
    type_string(&mut plan, password);
    plan.push(InputCommand::SleepMs { ms: 100 });
    plan.push(InputCommand::PressReturn);
    plan.push(InputCommand::SleepMs { ms: 1000 });
    proof {
        assert(plan@ =~= spec_injection_plan(*r, username@, password@));
    }
    plan
}

} // verus!
