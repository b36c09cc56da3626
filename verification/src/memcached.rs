//! Obfuscation of memcached commands.
use vstd::prelude::*;
use vstd::string::*;

verus! {

/// `i` starts a `"\r\n"` line terminator in `s`.
pub open spec fn crlf_at(s: Seq<char>, i: int) -> bool {
    0 <= i && i + 1 < s.len() && s[i] == '\r' && s[i + 1] == '\n'
}

/// The text of a memcached command up to (not including) its first line
/// terminator; the whole text when there is none.
pub open spec fn memcached_command_line(s: Seq<char>) -> Seq<char> {
    if exists|i: int| crlf_at(s, i) {
        let i = choose|i: int| crlf_at(s, i) && forall|j: int| 0 <= j < i ==> !crlf_at(s, j);
        s.take(i)
    } else {
        s
    }
}

/// Obfuscates the memcached command `cmd`: everything from the first
/// `"\r\n"` on (the stored value of a storage command) is removed.
pub fn obfuscate_memcached_string(cmd: &str) -> (res: String)
    ensures
        res@ == memcached_command_line(cmd@),
{
    let ghost s = cmd@;
    let n = cmd.unicode_len();
    let mut prev_cr = false;
    let mut idx: usize = 0;
    let mut found: Option<usize> = None;
    for c in it: cmd.chars()
        invariant
            it.seq() == s,
            n == s.len(),
            idx == it.index(),
            idx <= s.len(),
            prev_cr == (idx > 0 && s[idx - 1] == '\r'),
            found is None ==> forall|j: int| 0 <= j && j + 1 < idx ==> !crlf_at(s, j),
            found matches Some(f) ==> (f + 1 < idx && crlf_at(s, f as int) && forall|j: int|
                0 <= j < f ==> !crlf_at(s, j)),
    {
        assert(idx < s.len());
        if found.is_none() && prev_cr && c == '\n' {
            found = Some(idx - 1);
        }
        prev_cr = c == '\r';
        idx = idx + 1;
    }
    match found {
        Some(i) => {
            assert(crlf_at(s, i as int));
            let ghost k = choose|k: int| crlf_at(s, k) && forall|j: int| 0 <= j < k ==> !crlf_at(s, j);
            assert(k == i);
            cmd.substring_char(0, i).to_owned()
        },
        None => {
            assert(idx == s.len());
            cmd.to_owned()
        },
    }
}

} // verus!
