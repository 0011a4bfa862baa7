//! Patterns and the screening a compile request applies to each expression
//! before it is lowered for the engine: interior NUL bytes are refused (the
//! engine reads NUL-terminated text), and a small well-formedness screen
//! refuses expressions that the engine's dialect can never accept — empty
//! expressions, unbalanced groups or character classes, a trailing
//! backslash, and the recursion, subroutine and back-reference constructs
//! the engine does not support.

use vstd::prelude::*;
use vstd::string::StringExecFns;

use crate::flags::Flag;

verus! {

/// One expression to compile: its bytes, its compile flags, and an optional
/// numeric identifier reported with every match of this pattern.
#[derive(Clone, Debug)]
pub struct Pattern {
    pub(crate) expression: Vec<u8>,
    pub(crate) flags: Flag,
    pub(crate) id: Option<u32>,
}

/// The mathematical content of a `Pattern`.
pub ghost struct PatternView {
    /// the expression bytes
    pub expression: Seq<u8>,
    /// the raw compile flag bits
    pub flags: u32,
    /// the caller-chosen identifier, if any
    pub id: Option<u32>,
}

impl View for Pattern {
    type V = PatternView;

    closed spec fn view(&self) -> PatternView {
        PatternView { expression: self.expression@, flags: self.flags.bits, id: self.id }
    }
}

impl Pattern {
    /// Builds a pattern from expression bytes, flags and an optional
    /// identifier. Nothing is checked here; a compile request screens the
    /// expression.
    pub fn new(expression: Vec<u8>, flags: Flag, id: Option<u32>) -> (p: Self)
        ensures
            p@ == (PatternView { expression: expression@, flags: flags.bits, id }),
    {
        Pattern { expression, flags, id }
    }

    /// The expression bytes.
    pub fn expression(&self) -> (e: &Vec<u8>)
        ensures
            e@ == self@.expression,
    {
        &self.expression
    }

    /// The compile flags.
    pub fn flags(&self) -> (f: Flag)
        ensures
            f.bits == self@.flags,
    {
        self.flags
    }

    /// The caller-chosen identifier, if any.
    pub fn id(&self) -> (i: Option<u32>)
        ensures
            i == self@.id,
    {
        self.id
    }
}

/// Whether the expression holds a NUL byte anywhere.
pub open spec fn expr_has_nul(e: Seq<u8>) -> bool {
    exists|j: int| 0 <= j < e.len() && e[j] == 0
}

/// Whether `p` is the position of the first NUL byte of `e`.
pub open spec fn is_first_nul(e: Seq<u8>, p: int) -> bool {
    &&& 0 <= p < e.len()
    &&& e[p] == 0
    &&& forall|j: int| 0 <= j < p ==> e[j] != 0
}

/// Finds the first NUL byte of an expression, if there is one.
pub fn find_nul(e: &Vec<u8>) -> (r: Option<usize>)
    ensures
        match r {
            Some(p) => is_first_nul(e@, p as int),
            None => !expr_has_nul(e@),
        },
{
    let mut i: usize = 0;
    while i < e.len()
        invariant
            0 <= i <= e@.len(),
            forall|j: int| 0 <= j < i ==> e@[j] != 0,
        decreases e@.len() - i,
    {
        if e[i] == 0 {
            return Some(i);
        }
        i = i + 1;
    }
    None
}

/// The ways the screen can refuse an expression.
#[derive(Clone, Copy, Debug, PartialEq, Eq, Structural)]
pub enum ScreenFault {
    /// the expression has no bytes at all
    EmptyExpression,
    /// a group is opened and never closed, or closed and never opened
    UnbalancedGroup,
    /// a character class is opened and never closed
    UnbalancedClass,
    /// the expression ends in the middle of an escape
    TrailingBackslash,
    /// recursion, subroutine calls and back-references are never supported
    UnsupportedConstruct,
}

/// What the last bytes looked like, as far as the screen cares: nothing of
/// note, a group just opened, or a group opened and followed by `?`.
#[derive(Clone, Copy, Debug, PartialEq, Eq, Structural)]
pub enum GroupPrefix {
    /// no group prefix is in progress
    Outside,
    /// the previous byte opened a group
    AfterOpen,
    /// the previous two bytes were `(?`
    AfterQuery,
}

/// The screen's state after reading a prefix of the expression.
pub ghost struct ScreenState {
    /// the first fault found, if any; once set it never changes
    pub fault: Option<ScreenFault>,
    /// the previous byte was an unconsumed backslash
    pub escaped: bool,
    /// a character class is open
    pub in_class: bool,
    /// how many groups are open
    pub depth: int,
    /// whether the previous bytes began a group prefix
    pub group: GroupPrefix,
}

/// The screen's state before any byte is read.
pub open spec fn screen_init() -> ScreenState {
    ScreenState {
        fault: None,
        escaped: false,
        in_class: false,
        depth: 0,
        group: GroupPrefix::Outside,
    }
}

/// One byte of screening. A state with a fault is frozen. A backslash
/// escapes the next byte, except that an escaped digit is a back-reference
/// and is refused. Inside a character class only `\` and `]` matter. Outside
/// one, parentheses must balance, and `(?` followed by `R` or a digit is the
/// recursion or subroutine syntax the engine never accepts.
pub open spec fn screen_step(st: ScreenState, b: u8) -> ScreenState {
    if st.fault is Some {
        st
    } else if st.escaped {
        if 49 <= b <= 57 {
            ScreenState { fault: Some(ScreenFault::UnsupportedConstruct), ..st }
        } else {
            ScreenState { escaped: false, ..st }
        }
    } else if st.in_class {
        if b == 92 {
            ScreenState { escaped: true, ..st }
        } else if b == 93 {
            ScreenState { in_class: false, ..st }
        } else {
            st
        }
    } else if b == 92 {
        ScreenState { escaped: true, group: GroupPrefix::Outside, ..st }
    } else if b == 91 {
        ScreenState { in_class: true, group: GroupPrefix::Outside, ..st }
    } else if b == 40 {
        ScreenState { depth: st.depth + 1, group: GroupPrefix::AfterOpen, ..st }
    } else if b == 41 {
        if st.depth == 0 {
            ScreenState { fault: Some(ScreenFault::UnbalancedGroup), ..st }
        } else {
            ScreenState { depth: st.depth - 1, group: GroupPrefix::Outside, ..st }
        }
    } else if b == 63 {
        if st.group is AfterOpen {
            ScreenState { group: GroupPrefix::AfterQuery, ..st }
        } else {
            ScreenState { group: GroupPrefix::Outside, ..st }
        }
    } else if (b == 82 || (48 <= b <= 57)) && st.group is AfterQuery {
        ScreenState { fault: Some(ScreenFault::UnsupportedConstruct), ..st }
    } else {
        ScreenState { group: GroupPrefix::Outside, ..st }
    }
}

/// The screen's state after the first `n` bytes of `e`.
pub open spec fn screen_run(e: Seq<u8>, n: int) -> ScreenState
    decreases n,
{
    if n <= 0 {
        screen_init()
    } else {
        screen_step(screen_run(e, n - 1), e[n - 1])
    }
}

/// The screen's verdict on a whole expression: the first fault found while
/// reading it, or the fault its final state implies, or nothing.
pub open spec fn screen_fault_of(e: Seq<u8>) -> Option<ScreenFault> {
    if e.len() == 0 {
        Some(ScreenFault::EmptyExpression)
    } else {
        let st = screen_run(e, e.len() as int);
        if st.fault is Some {
            st.fault
        } else if st.escaped {
            Some(ScreenFault::TrailingBackslash)
        } else if st.in_class {
            Some(ScreenFault::UnbalancedClass)
        } else if st.depth > 0 {
            Some(ScreenFault::UnbalancedGroup)
        } else {
            None
        }
    }
}

/// Once the screen has found a fault, reading further bytes changes nothing.
pub proof fn lemma_fault_persists(e: Seq<u8>, n: int, m: int)
    requires
        0 <= n <= m <= e.len(),
        screen_run(e, n).fault is Some,
    ensures
        screen_run(e, m) == screen_run(e, n),
    decreases m - n,
{
    if m > n {
        lemma_fault_persists(e, n, m - 1);
    }
}

/// Runs the screen over a whole expression.
pub fn screen_expression(e: &Vec<u8>) -> (r: Option<ScreenFault>)
    ensures
        r == screen_fault_of(e@),
{
    if e.len() == 0 {
        return Some(ScreenFault::EmptyExpression);
    }
    let mut escaped: bool = false;
    let mut in_class: bool = false;
    let mut depth: usize = 0;
    let mut group: GroupPrefix = GroupPrefix::Outside;
    let mut i: usize = 0;
    while i < e.len()
        invariant
            0 <= i <= e@.len(),
            depth <= i,
            screen_run(e@, i as int) == (ScreenState {
                fault: None,
                escaped,
                in_class,
                depth: depth as int,
                group,
            }),
        decreases e@.len() - i,
    {
        let b = e[i];
        let ghost st = screen_run(e@, i as int);
        proof {
            assert(screen_run(e@, i + 1) == screen_step(st, e@[i as int]));
        }
        if escaped {
            if 49 <= b && b <= 57 {
                proof {
                    lemma_fault_persists(e@, i + 1, e@.len() as int);
                }
                return Some(ScreenFault::UnsupportedConstruct);
            }
            escaped = false;
        } else if in_class {
            if b == 92 {
                escaped = true;
            } else if b == 93 {
                in_class = false;
            }
        } else if b == 92 {
            escaped = true;
            group = GroupPrefix::Outside;
        } else if b == 91 {
            in_class = true;
            group = GroupPrefix::Outside;
        } else if b == 40 {
            depth = depth + 1;
            group = GroupPrefix::AfterOpen;
        } else if b == 41 {
            if depth == 0 {
                proof {
                    lemma_fault_persists(e@, i + 1, e@.len() as int);
                }
                return Some(ScreenFault::UnbalancedGroup);
            }
            depth = depth - 1;
            group = GroupPrefix::Outside;
        } else if b == 63 {
            if matches!(group, GroupPrefix::AfterOpen) {
                group = GroupPrefix::AfterQuery;
            } else {
                group = GroupPrefix::Outside;
            }
        } else if (b == 82 || (48 <= b && b <= 57)) && matches!(group, GroupPrefix::AfterQuery) {
            proof {
                lemma_fault_persists(e@, i + 1, e@.len() as int);
            }
            return Some(ScreenFault::UnsupportedConstruct);
        } else {
            group = GroupPrefix::Outside;
        }
        i = i + 1;
    }
    if escaped {
        Some(ScreenFault::TrailingBackslash)
    } else if in_class {
        Some(ScreenFault::UnbalancedClass)
    } else if depth > 0 {
        Some(ScreenFault::UnbalancedGroup)
    } else {
        None
    }
}

/// The diagnostic text for each screen fault.
pub open spec fn fault_text(f: ScreenFault) -> Seq<char> {
    match f {
        ScreenFault::EmptyExpression => "the expression is empty"@,
        ScreenFault::UnbalancedGroup => "unbalanced group parenthesis"@,
        ScreenFault::UnbalancedClass => "unbalanced character class"@,
        ScreenFault::TrailingBackslash => "the expression ends inside an escape"@,
        ScreenFault::UnsupportedConstruct => "recursion, subroutine calls and back-references are not supported"@,
    }
}

/// Builds the diagnostic message for a screen fault.
pub fn fault_message(f: ScreenFault) -> (m: String)
    ensures
        m@ == fault_text(f),
{
    match f {
        ScreenFault::EmptyExpression => String::from_str("the expression is empty"),
        ScreenFault::UnbalancedGroup => String::from_str("unbalanced group parenthesis"),
        ScreenFault::UnbalancedClass => String::from_str("unbalanced character class"),
        ScreenFault::TrailingBackslash => String::from_str("the expression ends inside an escape"),
        ScreenFault::UnsupportedConstruct => String::from_str(
            "recursion, subroutine calls and back-references are not supported",
        ),
    }
}

} // verus!
