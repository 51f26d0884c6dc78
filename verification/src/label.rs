//! The line that stands for a task in a menu.

use vstd::prelude::*;
use vstd::string::*;
use crate::task::{TaskRecord, TaskView, Urgency};
use crate::text::{
    chars_of, decimal, digit, fits_in, leading_fit, lemma_utf8_len_bounds, piece, push_decimal,
    push_spaces, spaces, utf8_fit, utf8_len, utf8_width,
};

verus! {

/// The most bytes of a description that a label shows.
pub const MAX_DESCRIPTION: usize = 60;

/// The bytes of a longer description that are kept before the dots.
pub const KEPT_DESCRIPTION: usize = 57;

/// `t` behind as many blanks as it takes to make `width` characters.
pub open spec fn pad_left(t: Seq<char>, width: nat) -> Seq<char> {
    if t.len() >= width {
        t
    } else {
        spaces((width - t.len()) as nat) + t
    }
}

/// `t` before as many blanks as it takes to make `width` characters.
pub open spec fn pad_right(t: Seq<char>, width: nat) -> Seq<char> {
    if t.len() >= width {
        t
    } else {
        t + spaces((width - t.len()) as nat)
    }
}

/// The number of the task in brackets, at least two characters wide, or two
/// hyphens where it has none.
pub open spec fn id_part(id: Option<u64>) -> Seq<char> {
    match id {
        Some(n) => "["@ + pad_left(decimal(n as nat), 2) + "]"@,
        None => "[--]"@,
    }
}

/// The description in a fixed width. One of no more than 60 bytes is filled
/// up with blanks to 60 characters. Of a longer one, the characters that fit
/// in 57 bytes stay, and three dots follow.
pub open spec fn description_part(d: Seq<char>) -> Seq<char> {
    if utf8_len(d) <= MAX_DESCRIPTION {
        pad_right(d, MAX_DESCRIPTION as nat)
    } else {
        d.take(utf8_fit(d, 0, KEPT_DESCRIPTION as int) as int) + "..."@
    }
}

/// The rating with its sign and two decimals.
pub open spec fn urgency_part(u: Urgency) -> Seq<char> {
    "(u="@ + (if u.negative {
        "-"@
    } else {
        "+"@
    }) + decimal((u.hundredths / 100) as nat) + "."@ + seq![
        digit((u.hundredths / 10 % 10) as nat),
        digit((u.hundredths % 10) as nat),
    ] + ")"@
}

/// The label of a task: number, description, then rating and project where
/// the task has them, with one blank between each two.
pub open spec fn task_label(t: TaskView) -> Seq<char> {
    id_part(t.id) + " "@ + description_part(t.description) + (match t.urgency {
        Some(u) => " "@ + urgency_part(u),
        None => Seq::empty(),
    }) + (match t.project {
        Some(p) => " "@ + ("proj:"@ + p),
        None => Seq::empty(),
    })
}

proof fn lemma_fit_within(s: Seq<char>, i: int, room: int)
    requires
        0 <= room,
    ensures
        utf8_fit(s, i, room) <= room,
    decreases s.len() - i,
{
    if 0 <= i < s.len() && utf8_width(s[i]) <= room {
        lemma_fit_within(s, i + 1, room - utf8_width(s[i]));
    }
}

/// The description never takes more than 60 characters of a label, and a
/// description of no more than 60 bytes takes exactly 60.
pub proof fn lemma_description_width(d: Seq<char>)
    ensures
        description_part(d).len() <= MAX_DESCRIPTION,
        utf8_len(d) <= MAX_DESCRIPTION ==> description_part(d).len() == MAX_DESCRIPTION,
        utf8_len(d) <= MAX_DESCRIPTION ==> d.is_prefix_of(description_part(d)),
        utf8_len(d) > MAX_DESCRIPTION ==> "..."@.is_suffix_of(description_part(d)),
{
    lemma_utf8_len_bounds(d, d.len() as int);
    assert(d.take(d.len() as int) =~= d);
    if utf8_len(d) > MAX_DESCRIPTION {
        lemma_fit_within(d, 0, KEPT_DESCRIPTION as int);
        reveal_strlit("...");
        lemma_fit_ends(d, 0, KEPT_DESCRIPTION as int);
        let kept = d.take(utf8_fit(d, 0, KEPT_DESCRIPTION as int) as int);
        assert((kept + "..."@).subrange(kept.len() as int, kept.len() as int + 3) =~= "..."@);
    }
}

proof fn lemma_fit_ends(s: Seq<char>, i: int, room: int)
    requires
        0 <= i <= s.len(),
    ensures
        i + utf8_fit(s, i, room) <= s.len(),
    decreases s.len() - i,
{
    if i < s.len() && utf8_width(s[i]) <= room {
        lemma_fit_ends(s, i + 1, room - utf8_width(s[i]));
    }
}

fn push_id(out: &mut String, id: Option<u64>)
    ensures
        final(out)@ == old(out)@ + id_part(id),
{
    match id {
        Some(n) => {
            out.append("[");
            if n < 10 {
                out.append(" ");
                proof {
                    reveal_strlit(" ");
                    assert(spaces(1) =~= " "@);
                }
            } else {
                assert(decimal(n as nat).len() >= 2) by {
                    assert(decimal(n as nat) == decimal((n / 10) as nat).push(digit((n % 10) as nat)));
                    assert(decimal((n / 10) as nat).len() >= 1) by {
                        reveal_with_fuel(decimal, 2);
                    }
                }
            }
            push_decimal(out, n);
            out.append("]");
            assert(out@ =~= old(out)@ + id_part(id));
        },
        None => {
            out.append("[--]");
        },
    }
}

fn push_description(out: &mut String, description: &str)
    ensures
        final(out)@ == old(out)@ + description_part(description@),
{
    let cs = chars_of(description);
    if fits_in(&cs, MAX_DESCRIPTION) {
        proof {
            lemma_utf8_len_bounds(cs@, cs@.len() as int);
            assert(cs@.take(cs@.len() as int) =~= cs@);
        }
        out.append(description);
        push_spaces(out, MAX_DESCRIPTION - cs.len());
        proof {
            assert(spaces(0) =~= Seq::<char>::empty());
            assert(out@ =~= old(out)@ + description_part(description@));
        }
    } else {
        let k = leading_fit(&cs, KEPT_DESCRIPTION);
        let head = piece(description, 0, k);
        out.append(head.as_str());
        out.append("...");
        assert(out@ =~= old(out)@ + description_part(description@));
    }
}

fn push_urgency(out: &mut String, u: Urgency)
    ensures
        final(out)@ == old(out)@ + urgency_part(u),
{
    out.append("(u=");
    if u.negative {
        out.append("-");
    } else {
        out.append("+");
    }
    push_decimal(out, u.hundredths / 100);
    out.append(".");
    let ghost before = out@;
    push_decimal(out, u.hundredths / 10 % 10);
    push_decimal(out, u.hundredths % 10);
    proof {
        assert(out@ =~= before + seq![
            digit((u.hundredths / 10 % 10) as nat),
            digit((u.hundredths % 10) as nat),
        ]);
    }
    out.append(")");
    assert(out@ =~= old(out)@ + urgency_part(u));
}

/// The label that stands for `task` in a menu.
pub fn format_task(task: &TaskRecord) -> (r: String)
    ensures
        r@ == task_label(task@),
{
    let mut r = String::new();
    push_id(&mut r, task.id);
    r.append(" ");
    push_description(&mut r, task.description.as_str());
    match task.urgency {
        Some(u) => {
            r.append(" ");
            push_urgency(&mut r, u);
        },
        None => {},
    }
    match &task.project {
        Some(p) => {
            r.append(" ");
            r.append("proj:");
            r.append(p.as_str());
        },
        None => {},
    }
    assert(r@ =~= task_label(task@));
    r
}

} // verus!
