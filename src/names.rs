//! Reading a project's name out of its metadata files.
//!
//! Each format is read line by line; the first line that a format's rule
//! accepts gives the name, as a range of the file's characters.

use vstd::prelude::*;
use crate::text::{
    back_space, back_space_exec, chars_of, find_char, find_char_exec, line_end, line_end_exec,
    occurs_at, occurs_at_exec, occurs_in, occurs_in_exec, rfind_char, rfind_char_exec,
    skip_space, skip_space_exec, slice_text,
};

verus! {

/// How a single metadata line yields a name.
#[derive(Clone, Copy, Debug, PartialEq, Eq, Structural)]
pub enum NameRule {
    /// A trimmed line starting with `name`, holding `=`, whose text between
    /// its first and its last `"` is the name (`Cargo.toml`, `pyproject.toml`).
    Quoted,
    /// A trimmed line holding `name` and `=`, whose text between its first and
    /// last `"`, or else between its first and last `'`, is the name (`setup.py`).
    Call,
    /// A trimmed line starting with `name` and holding `=`, whose trimmed text
    /// after the first `=` (up to any second `=`) is the name (`setup.cfg`).
    Assign,
    /// A trimmed line starting with `module `, whose trimmed remainder's last
    /// `/`-separated segment is the name (`go.mod`).
    Module,
}

/// Range between the first and the last `q` of `[a, b)`, when those differ.
pub open spec fn quoted_range(s: Seq<char>, a: int, b: int, q: char) -> Option<(int, int)> {
    match (find_char(s, a, b, q), rfind_char(s, a, b, q)) {
        (Some(x), Some(y)) => if x != y { Some((x + 1, y)) } else { None },
        _ => None,
    }
}

/// What the trimmed line `[a, b)` yields under `rule`.
pub open spec fn trimmed_line_value(s: Seq<char>, a: int, b: int, rule: NameRule) -> Option<(int, int)> {
    match rule {
        NameRule::Quoted => {
            if occurs_at(s, a, b, "name"@) && find_char(s, a, b, '=') is Some {
                quoted_range(s, a, b, '"')
            } else {
                None
            }
        },
        NameRule::Call => {
            if occurs_in(s, a, b, "name"@) && find_char(s, a, b, '=') is Some {
                if quoted_range(s, a, b, '"') is Some {
                    quoted_range(s, a, b, '"')
                } else {
                    quoted_range(s, a, b, '\'')
                }
            } else {
                None
            }
        },
        NameRule::Assign => {
            if occurs_at(s, a, b, "name"@) {
                match find_char(s, a, b, '=') {
                    Some(e) => {
                        let f = match find_char(s, e + 1, b, '=') {
                            Some(g) => g,
                            None => b,
                        };
                        let x = skip_space(s, e + 1, f);
                        Some((x, back_space(s, x, f)))
                    },
                    None => None,
                }
            } else {
                None
            }
        },
        NameRule::Module => {
            if occurs_at(s, a, b, "module "@) {
                let x = skip_space(s, a + 7, b);
                let y = back_space(s, x, b);
                match rfind_char(s, x, y, '/') {
                    Some(k) => Some((k + 1, y)),
                    None => Some((x, y)),
                }
            } else {
                None
            }
        },
    }
}

/// What the line `[lo, hi)` yields under `rule`, once trimmed.
pub open spec fn line_value(s: Seq<char>, lo: int, hi: int, rule: NameRule) -> Option<(int, int)> {
    let a = skip_space(s, lo, hi);
    trimmed_line_value(s, a, back_space(s, a, hi), rule)
}

/// The value of the first line, from index `i` on, that `rule` accepts.
pub open spec fn first_value(s: Seq<char>, i: int, rule: NameRule) -> Option<(int, int)>
    decreases s.len() - i,
{
    if i < 0 || i > s.len() {
        None
    } else {
        let e = line_end(s, i);
        match line_value(s, i, e, rule) {
            Some(v) => Some(v),
            None => if i <= e && e < s.len() {
                first_value(s, e + 1, rule)
            } else {
                None
            },
        }
    }
}

/// The name that `rule` reads from the text `s`.
pub open spec fn metadata_name(s: Seq<char>, rule: NameRule) -> Option<Seq<char>> {
    match first_value(s, 0, rule) {
        Some(v) => Some(s.subrange(v.0, v.1)),
        None => None,
    }
}

fn quoted_range_exec(s: &Vec<char>, a: usize, b: usize, q: char) -> (r: Option<(usize, usize)>)
    requires
        a <= b <= s@.len(),
    ensures
        r matches Some(v) ==> quoted_range(s@, a as int, b as int, q) == Some((v.0 as int, v.1 as int))
            && v.0 <= v.1 <= s@.len(),
        r is None ==> quoted_range(s@, a as int, b as int, q) is None,
{
    match (find_char_exec(s, a, b, q), rfind_char_exec(s, a, b, q)) {
        (Some(x), Some(y)) => if x != y {
            proof {
                find_le_rfind(s@, a as int, b as int, q);
            }
            Some((x + 1, y))
        } else {
            None
        },
        _ => None,
    }
}

proof fn find_le_rfind(s: Seq<char>, a: int, b: int, q: char)
    requires
        find_char(s, a, b, q) is Some,
        rfind_char(s, a, b, q) is Some,
    ensures
        find_char(s, a, b, q)->0 <= rfind_char(s, a, b, q)->0,
        find_char(s, a, b, q)->0 < b,
{
    find_first(s, a, b, q);
    find_last(s, a, b, q);
}

proof fn find_first(s: Seq<char>, i: int, hi: int, q: char)
    requires
        find_char(s, i, hi, q) is Some,
    ensures
        i <= find_char(s, i, hi, q)->0 < hi,
        s[find_char(s, i, hi, q)->0] == q,
    decreases hi - i,
{
    if i < hi && s[i] != q {
        find_first(s, i + 1, hi, q);
    }
}

proof fn find_last(s: Seq<char>, lo: int, j: int, q: char)
    requires
        rfind_char(s, lo, j, q) is Some,
    ensures
        lo <= rfind_char(s, lo, j, q)->0 < j,
        forall|k: int| #![trigger s[k]] lo <= k < j && s[k] == q ==> k <= rfind_char(s, lo, j, q)->0,
    decreases j - lo,
{
    if lo < j && s[j - 1] != q {
        find_last(s, lo, j - 1, q);
    }
}

fn trimmed_line_value_exec(
    s: &Vec<char>,
    a: usize,
    b: usize,
    rule: NameRule,
    name_pat: &Vec<char>,
    module_pat: &Vec<char>,
) -> (r: Option<(usize, usize)>)
    requires
        a <= b <= s@.len(),
        name_pat@ == "name"@,
        module_pat@ == "module "@,
    ensures
        r matches Some(v) ==> trimmed_line_value(s@, a as int, b as int, rule) == Some((v.0 as int, v.1 as int))
            && v.0 <= v.1 <= s@.len(),
        r is None ==> trimmed_line_value(s@, a as int, b as int, rule) is None,
{
    match rule {
        NameRule::Quoted => {
            if occurs_at_exec(s, a, b, name_pat) && find_char_exec(s, a, b, '=').is_some() {
                quoted_range_exec(s, a, b, '"')
            } else {
                None
            }
        },
        NameRule::Call => {
            if occurs_in_exec(s, a, b, name_pat) && find_char_exec(s, a, b, '=').is_some() {
                let d = quoted_range_exec(s, a, b, '"');
                if d.is_some() {
                    d
                } else {
                    quoted_range_exec(s, a, b, '\'')
                }
            } else {
                None
            }
        },
        NameRule::Assign => {
            if occurs_at_exec(s, a, b, name_pat) {
                match find_char_exec(s, a, b, '=') {
                    Some(e) => {
                        let f = match find_char_exec(s, e + 1, b, '=') {
                            Some(g) => g,
                            None => b,
                        };
                        let x = skip_space_exec(s, e + 1, f);
                        Some((x, back_space_exec(s, x, f)))
                    },
                    None => None,
                }
            } else {
                None
            }
        },
        NameRule::Module => {
            if occurs_at_exec(s, a, b, module_pat) {
                proof {
                    reveal_strlit("module ");
                }
                let x = skip_space_exec(s, a + 7, b);
                let y = back_space_exec(s, x, b);
                match rfind_char_exec(s, x, y, '/') {
                    Some(k) => Some((k + 1, y)),
                    None => Some((x, y)),
                }
            } else {
                None
            }
        },
    }
}

/// The name that `rule` reads from `content`.
pub fn extract_name(content: &str, rule: NameRule) -> (r: Option<String>)
    ensures
        r matches Some(n) ==> metadata_name(content@, rule) == Some(n@),
        r is None ==> metadata_name(content@, rule) is None,
{
    let s = chars_of(content);
    let name_pat = chars_of("name");
    let module_pat = chars_of("module ");
    let mut i: usize = 0;
    while i <= s.len()
        invariant
            i <= s@.len() + 1,
            s@ == content@,
            name_pat@ == "name"@,
            module_pat@ == "module "@,
            first_value(s@, i as int, rule) == first_value(s@, 0, rule),
        decreases s@.len() + 1 - i,
    {
        let e = line_end_exec(&s, i);
        let a = skip_space_exec(&s, i, e);
        let b = back_space_exec(&s, a, e);
        match trimmed_line_value_exec(&s, a, b, rule, &name_pat, &module_pat) {
            Some(v) => {
                return Some(slice_text(content, v.0, v.1));
            },
            None => {},
        }
        if e == s.len() {
            return None;
        }
        i = e + 1;
    }
    None
}

} // verus!
