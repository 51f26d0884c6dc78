//! Reading a setting out of what the task store prints of its settings.

use vstd::prelude::*;
use vstd::string::*;
use crate::error::{MenuError, MenuErrorView};
use crate::text::{chars_of, lines, piece, split_lines, texts};

verus! {

/// What `line` gives for the setting `name`: the text behind the first blank,
/// where the line holds a blank and `name` is what stands before the first.
pub open spec fn setting_in(line: Seq<char>, name: Seq<char>) -> Option<Seq<char>> {
    let n = name.len() as int;
    if n < line.len() && !name.contains(' ') && line.take(n) == name && line[n] == ' ' {
        Some(line.skip(n + 1))
    } else {
        None
    }
}

/// What the first of the lines from position `i` on that names the setting
/// gives for it.
pub open spec fn first_setting(all: Seq<Seq<char>>, name: Seq<char>, i: int) -> Option<Seq<char>>
    decreases all.len() - i,
{
    if i < 0 || i >= all.len() {
        None
    } else {
        match setting_in(all[i], name) {
            Some(v) => Some(v),
            None => first_setting(all, name, i + 1),
        }
    }
}

/// The value of the setting `name` in `output`, which is what the task store
/// printed when asked to show its settings.
pub open spec fn config_var(output: Seq<char>, name: Seq<char>) -> Option<Seq<char>> {
    first_setting(lines(output), name, 0)
}

fn has_blank(cs: &Vec<char>) -> (b: bool)
    ensures
        b == cs@.contains(' '),
{
    let mut i: usize = 0;
    while i < cs.len()
        invariant
            i <= cs.len(),
            forall|k: int| 0 <= k < i ==> cs@[k] != ' ',
        decreases cs.len() - i,
    {
        if cs[i] == ' ' {
            return true;
        }
        i = i + 1;
    }
    false
}

fn setting_of_line(line: &str, name: &Vec<char>) -> (r: Option<String>)
    requires
        !name@.contains(' '),
    ensures
        match r {
            Some(v) => setting_in(line@, name@) == Some(v@),
            None => setting_in(line@, name@) is None,
        },
{
    let cl = chars_of(line);
    let n = name.len();
    if n >= cl.len() {
        return None;
    }
    let mut i: usize = 0;
    while i < n
        invariant
            i <= n < cl.len(),
            n == name.len(),
            cl@ == line@,
            forall|k: int| 0 <= k < i ==> line@[k] == name@[k],
        decreases n - i,
    {
        if cl[i] != name[i] {
            assert(line@.take(n as int)[i as int] != name@[i as int]);
            return None;
        }
        i = i + 1;
    }
    assert(line@.take(n as int) =~= name@);
    if cl[n] != ' ' {
        return None;
    }
    let v = piece(line, n + 1, cl.len());
    Some(v)
}

/// Finds the setting `name` in `output`, the text that the task store prints
/// for its settings: the first line that consists of `name`, a blank and a
/// value gives the value.
pub fn get_config_var(output: &str, name: &str) -> (r: Result<String, MenuError>)
    ensures
        match r {
            Ok(v) => config_var(output@, name@) == Some(v@),
            Err(e) => config_var(output@, name@) is None && e@ == MenuErrorView::MissingSetting,
        },
{
    let cn = chars_of(name);
    let all = split_lines(output);
    if has_blank(&cn) {
        proof {
            lemma_no_setting(texts(all@), name@, 0);
        }
        return Err(MenuError::MissingSetting);
    }
    let mut i: usize = 0;
    while i < all.len()
        invariant
            i <= all.len(),
            cn@ == name@,
            !name@.contains(' '),
            texts(all@) == lines(output@),
            config_var(output@, name@) == first_setting(texts(all@), name@, i as int),
        decreases all.len() - i,
    {
        match setting_of_line(all[i].as_str(), &cn) {
            Some(v) => {
                return Ok(v);
            },
            None => {},
        }
        i = i + 1;
    }
    Err(MenuError::MissingSetting)
}

proof fn lemma_no_setting(all: Seq<Seq<char>>, name: Seq<char>, i: int)
    requires
        name.contains(' '),
    ensures
        first_setting(all, name, i) is None,
    decreases all.len() - i,
{
    if 0 <= i < all.len() {
        lemma_no_setting(all, name, i + 1);
    }
}

} // verus!
