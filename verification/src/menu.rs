//! The interactive shell's menu logic: one line of input, read as bytes,
//! is trimmed of surrounding ASCII whitespace and parsed as a decimal
//! integer selection. Selection 1 shows the stored tasks, selection 2 adds
//! one; anything else — a non-numeric line, an integer that overflows, or a
//! number outside the menu — asks the caller to prompt again.
//!
//! Trimming here is of ASCII whitespace only: a line whose padding is
//! non-ASCII whitespace does not read as a selection and re-prompts.

use vstd::prelude::*;

verus! {

/// What one line of menu input asks for.
#[derive(Clone, Copy, Debug, PartialEq, Eq, Structural)]
pub enum MenuAction {
    /// Selection 1: list the stored tasks.
    ShowTasks,
    /// Selection 2: collect and insert a new task.
    AddTask,
    /// The line does not read as an integer: prompt again.
    NotANumber,
    /// The line reads as an integer outside the menu: prompt again.
    OutOfRange,
}

/// Both rejection outcomes lead back to the prompt.
pub open spec fn is_reprompt(a: MenuAction) -> bool {
    a == MenuAction::NotANumber || a == MenuAction::OutOfRange
}

/// ASCII whitespace, the characters `str::trim` removes from ASCII text.
pub open spec fn is_ascii_space(b: u8) -> bool {
    b == 9 || b == 10 || b == 11 || b == 12 || b == 13 || b == 32
}

/// An ASCII decimal digit.
pub open spec fn is_ascii_digit(b: u8) -> bool {
    48 <= b <= 57
}

/// `s` without its leading ASCII whitespace.
pub open spec fn trim_front_spec(s: Seq<u8>) -> Seq<u8>
    decreases s.len(),
{
    if s.len() > 0 && is_ascii_space(s[0]) {
        trim_front_spec(s.subrange(1, s.len() as int))
    } else {
        s
    }
}

/// `s` without its trailing ASCII whitespace.
pub open spec fn trim_back_spec(s: Seq<u8>) -> Seq<u8>
    decreases s.len(),
{
    if s.len() > 0 && is_ascii_space(s[s.len() - 1]) {
        trim_back_spec(s.subrange(0, s.len() - 1))
    } else {
        s
    }
}

/// `s` without surrounding ASCII whitespace.
pub open spec fn trim_spec(s: Seq<u8>) -> Seq<u8> {
    trim_back_spec(trim_front_spec(s))
}

/// The value of a string of decimal digits, most significant first.
pub open spec fn digits_val(s: Seq<u8>) -> int
    decreases s.len(),
{
    if s.len() == 0 {
        0
    } else {
        digits_val(s.subrange(0, s.len() - 1)) * 10 + (s[s.len() - 1] - 48)
    }
}

/// Every byte of `s` is a decimal digit.
pub open spec fn all_digits(s: Seq<u8>) -> bool {
    forall|i: int| 0 <= i < s.len() ==> is_ascii_digit(s[i])
}

/// What parsing `s` as a 32-bit decimal integer yields: an optional sign,
/// then at least one digit and nothing else, and a value within the 32-bit
/// range; `None` otherwise.
pub open spec fn parse_i32_spec(s: Seq<u8>) -> Option<int> {
    let signed = s.len() > 0 && (s[0] == 43 || s[0] == 45);
    let body = if signed {
        s.subrange(1, s.len() as int)
    } else {
        s
    };
    let v = if s.len() > 0 && s[0] == 45 {
        -digits_val(body)
    } else {
        digits_val(body)
    };
    if body.len() > 0 && all_digits(body) && -2147483648 <= v <= 2147483647 {
        Some(v)
    } else {
        None
    }
}

/// What one raw input line asks of the shell.
pub open spec fn menu_action_spec(input: Seq<u8>) -> MenuAction {
    match parse_i32_spec(trim_spec(input)) {
        Some(n) => if n == 1 {
            MenuAction::ShowTasks
        } else if n == 2 {
            MenuAction::AddTask
        } else {
            MenuAction::OutOfRange
        },
        None => MenuAction::NotANumber,
    }
}

/// Every input whose trimmed text does not read as the integer 1 or 2 —
/// non-numeric lines included — leads back to the prompt, never to an
/// action.
pub proof fn lemma_invalid_input_reprompts(input: Seq<u8>)
    requires
        parse_i32_spec(trim_spec(input)) != Some(1int),
        parse_i32_spec(trim_spec(input)) != Some(2int),
    ensures
        is_reprompt(menu_action_spec(input)),
{
}

/// The value of a digit string is never negative.
proof fn lemma_digits_val_nonneg(s: Seq<u8>)
    requires
        all_digits(s),
    ensures
        digits_val(s) >= 0,
    decreases s.len(),
{
    if s.len() > 0 {
        let pre = s.subrange(0, s.len() - 1);
        assert(all_digits(pre));
        lemma_digits_val_nonneg(pre);
        assert(is_ascii_digit(s[s.len() - 1]));
    }
}

/// The value of a digit string never drops when digits are appended, and
/// is never negative.
proof fn lemma_digits_val_bounds(s: Seq<u8>, i: int)
    requires
        all_digits(s),
        0 <= i <= s.len(),
    ensures
        0 <= digits_val(s.subrange(0, i)) <= digits_val(s),
    decreases s.len() - i,
{
    let pre = s.subrange(0, i);
    assert(all_digits(pre));
    lemma_digits_val_nonneg(pre);
    if i < s.len() {
        lemma_digits_val_bounds(s, i + 1);
        let ext = s.subrange(0, i + 1);
        assert(ext.subrange(0, ext.len() - 1) =~= pre);
        assert(is_ascii_digit(s[i]));
        assert(digits_val(ext) == digits_val(pre) * 10 + (s[i] - 48));
    } else {
        assert(pre =~= s);
    }
}

/// Whether `b` is ASCII whitespace.
fn is_space_byte(b: u8) -> (r: bool)
    ensures
        r == is_ascii_space(b),
{
    b == 9 || b == 10 || b == 11 || b == 12 || b == 13 || b == 32
}

/// Bounds of the input, trimmed: `input@.subrange(r.0, r.1)` is the text
/// without its surrounding ASCII whitespace. Serves the menu line here,
/// and the shell's collected task fields.
pub fn trim_bounds(input: &[u8]) -> (r: (usize, usize))
    ensures
        0 <= r.0 <= r.1 <= input@.len(),
        input@.subrange(r.0 as int, r.1 as int) == trim_spec(input@),
{
    let n = input.len();
    proof {
        assert(input@.subrange(0, n as int) =~= input@);
    }
    let mut lo: usize = 0;
    while lo < n && is_space_byte(input[lo])
        invariant
            0 <= lo <= n,
            n == input@.len(),
            trim_front_spec(input@) == trim_front_spec(input@.subrange(lo as int, n as int)),
        decreases n - lo,
    {
        proof {
            let rest = input@.subrange(lo as int, n as int);
            assert(rest.subrange(1, rest.len() as int) =~= input@.subrange(
                lo as int + 1,
                n as int,
            ));
        }
        lo = lo + 1;
    }
    proof {
        assert(trim_front_spec(input@) =~= input@.subrange(lo as int, n as int));
    }
    let mut hi: usize = n;
    while hi > lo && is_space_byte(input[hi - 1])
        invariant
            lo <= hi <= n,
            n == input@.len(),
            trim_front_spec(input@) == input@.subrange(lo as int, n as int),
            trim_back_spec(input@.subrange(lo as int, n as int)) == trim_back_spec(
                input@.subrange(lo as int, hi as int),
            ),
        decreases hi - lo,
    {
        proof {
            let rest = input@.subrange(lo as int, hi as int);
            assert(rest.subrange(0, rest.len() - 1) =~= input@.subrange(
                lo as int,
                hi as int - 1,
            ));
        }
        hi = hi - 1;
    }
    proof {
        assert(trim_back_spec(input@.subrange(lo as int, hi as int)) =~= input@.subrange(
            lo as int,
            hi as int,
        ));
    }
    (lo, hi)
}

/// Reads one raw line of menu input (as bytes) and says what it asks for:
/// show the tasks, add one, or — for anything that does not read as the
/// number 1 or 2 — prompt again. Never fails, whatever the input.
#[verifier::loop_isolation(false)]
pub fn parse_menu_selection(input: &[u8]) -> (r: MenuAction)
    ensures
        r == menu_action_spec(input@),
{
    let (lo, hi) = trim_bounds(input);
    let ghost t = trim_spec(input@);
    proof {
        assert(t == input@.subrange(lo as int, hi as int));
        if lo < hi {
            assert(t[0] == input@[lo as int]);
        }
    }
    if lo == hi {
        proof {
            assert(t.len() == 0);
        }
        return MenuAction::NotANumber;
    }
    let first = input[lo];
    let neg = first == 45;
    let start: usize = if first == 43 || first == 45 {
        lo + 1
    } else {
        lo
    };
    let ghost body = if first == 43 || first == 45 {
        t.subrange(1, t.len() as int)
    } else {
        t
    };
    proof {
        assert(body =~= input@.subrange(start as int, hi as int));
    }
    if start == hi {
        return MenuAction::NotANumber;
    }
    let mut acc: u64 = 0;
    let mut i: usize = start;
    while i < hi
        invariant
            start <= i <= hi <= input@.len(),
            body == input@.subrange(start as int, hi as int),
            body.len() == hi - start,
            all_digits(body.subrange(0, i - start)),
            acc == digits_val(body.subrange(0, i - start)),
            acc <= 2147483648,
        decreases hi - i,
    {
        let b = input[i];
        if b < 48 || b > 57 {
            proof {
                assert(body[i - start] == b);
                assert(!all_digits(body));
            }
            return MenuAction::NotANumber;
        }
        acc = acc * 10 + (b - 48) as u64;
        proof {
            let pre = body.subrange(0, i - start);
            let ext = body.subrange(0, i + 1 - start);
            assert(ext.subrange(0, ext.len() - 1) =~= pre);
            assert(ext[ext.len() - 1] == b);
        }
        i = i + 1;
        if acc > 2147483648 {
            proof {
                if all_digits(body) {
                    lemma_digits_val_bounds(body, i - start);
                }
            }
            return MenuAction::NotANumber;
        }
    }
    proof {
        assert(body.subrange(0, body.len() as int) =~= body);
        lemma_digits_val_bounds(body, 0);
    }
    if neg {
        proof {
            assert(t[0] == 45);
        }
        MenuAction::OutOfRange
    } else if acc == 1 {
        MenuAction::ShowTasks
    } else if acc == 2 {
        MenuAction::AddTask
    } else if acc > 2147483647 {
        MenuAction::NotANumber
    } else {
        MenuAction::OutOfRange
    }
}

} // verus!
