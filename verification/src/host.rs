//! Reading the host triple out of what the compiler prints about itself: the
//! first line that starts with `host: `, trimmed, without that mark.

use crate::text::{trim, trimmed};
use vstd::prelude::*;
use vstd::string::*;

verus! {

/// The mark that the line of the host triple starts with.
pub open spec fn host_mark() -> Seq<char> {
    "host: "@
}

/// Whether a line of `text` starts at `i` and ends before `j`: `i` is the
/// start of the text or follows a line feed, and `j` is the first line feed
/// from `i` on, or the end of the text.
pub open spec fn is_line(text: Seq<char>, i: int, j: int) -> bool {
    &&& 0 <= i <= j <= text.len()
    &&& (i == 0 || text[i - 1] == '\n')
    &&& (j == text.len() || text[j] == '\n')
    &&& forall|k: int| i <= k < j ==> text[k] != '\n'
}

/// Whether the line from `i` to `j` starts with the mark.
pub open spec fn is_host_line(text: Seq<char>, i: int, j: int) -> bool {
    &&& is_line(text, i, j)
    &&& i + host_mark().len() <= j
    &&& text.subrange(i, i + host_mark().len()) == host_mark()
}

/// Whether the line from `i` to `j` is the first that starts with the mark.
pub open spec fn is_first_host_line(text: Seq<char>, i: int, j: int) -> bool {
    &&& is_host_line(text, i, j)
    &&& forall|k: int, l: int| 0 <= k < i ==> !is_host_line(text, k, l)
}

/// The first line that starts with the mark, where there is one.
pub open spec fn host_line(text: Seq<char>) -> Option<Seq<char>> {
    if exists|i: int, j: int| is_first_host_line(text, i, j) {
        let (i, j) = choose|i: int, j: int| is_first_host_line(text, i, j);
        Some(text.subrange(i, j))
    } else {
        None
    }
}

/// The host triple that a text names: what follows the mark in the first
/// line that starts with it, once that line is trimmed. There is none where
/// no line starts with the mark, or where the trimmed line is shorter than
/// the mark.
pub open spec fn host_triple(text: Seq<char>) -> Option<Seq<char>> {
    match host_line(text) {
        Some(line) => if trimmed(line).len() >= host_mark().len() {
            Some(trimmed(line).skip(host_mark().len() as int))
        } else {
            None
        },
        None => None,
    }
}

/// A line that starts at one place ends at one place.
pub proof fn line_end_unique(text: Seq<char>, i: int, j: int, l: int)
    requires
        is_line(text, i, j),
        is_line(text, i, l),
    ensures
        j == l,
{
    if j < l {
        assert(text[j] != '\n');
    } else if l < j {
        assert(text[l] != '\n');
    }
}

/// There is one first line with the mark at most.
pub proof fn first_host_line_unique(text: Seq<char>, i: int, j: int, k: int, l: int)
    requires
        is_first_host_line(text, i, j),
        is_first_host_line(text, k, l),
    ensures
        i == k,
        j == l,
{
    if i < k {
        assert(!is_host_line(text, i, j));
    } else if k < i {
        assert(!is_host_line(text, k, l));
    } else {
        line_end_unique(text, i, j, l);
    }
}

/// Finds the host triple in what `rustc -vV` printed.
pub fn find_host(text: &str) -> (host: Option<String>)
    ensures
        match host {
            Some(h) => host_triple(text@) == Some(h@),
            None => host_triple(text@).is_none(),
        },
{
    let n = text.unicode_len();
    let mark = String::from_str("host: ");
    let m = "host: ".unicode_len();
    let mut i: usize = 0;
    loop
        invariant
            n == text@.len(),
            m == host_mark().len(),
            mark@ == host_mark(),
            i <= n,
            i == 0 || text@[i - 1] == '\n',
            forall|k: int, l: int| 0 <= k < i ==> !is_host_line(text@, k, l),
        decreases n - i,
    {
        let mut j: usize = i;
        while j < n && text.get_char(j) != '\n'
            invariant
                n == text@.len(),
                i <= j <= n,
                forall|k: int| i <= k < j ==> text@[k] != '\n',
            decreases n - j,
        {
            j += 1;
        }
        assert(is_line(text@, i as int, j as int));
        let mut marked = false;
        if j - i >= m {
            let head = String::from_str(text.substring_char(i, i + m));
            marked = head == mark;
        }
        if marked {
            let line = trim(text.substring_char(i, j));
            let length = line.as_str().unicode_len();
            proof {
                assert(is_first_host_line(text@, i as int, j as int));
                let (k, l) = choose|k: int, l: int| is_first_host_line(text@, k, l);
                first_host_line_unique(text@, i as int, j as int, k, l);
                assert(host_line(text@) == Some(text@.subrange(i as int, j as int)));
            }
            if length >= m {
                let rest = String::from_str(line.as_str().substring_char(m, length));
                assert(rest@ =~= trimmed(text@.subrange(i as int, j as int)).skip(m as int));
                return Some(rest);
            }
            return None;
        }
        proof {
            assert forall|l: int| !is_host_line(text@, i as int, l) by {
                if is_line(text@, i as int, l) {
                    line_end_unique(text@, i as int, j as int, l);
                }
            }
        }
        if j == n {
            proof {
                assert forall|k: int, l: int| !is_first_host_line(text@, k, l) by {
                    if i < k <= n {
                        assert(text@[k - 1] != '\n');
                    }
                }
            }
            return None;
        }
        proof {
            assert forall|k: int, l: int| 0 <= k < j + 1 implies !is_host_line(text@, k, l) by {
                if i < k {
                    assert(text@[k - 1] != '\n');
                }
            }
        }
        i = j + 1;
    }
}

} // verus!
