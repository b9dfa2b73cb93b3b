use vstd::prelude::*;

verus! {

/// Index `i` holds the last `/` of `s`.
pub open spec fn is_last_slash(s: Seq<char>, i: int) -> bool {
    &&& 0 <= i < s.len()
    &&& s[i] == '/'
    &&& forall|j: int| i < j < s.len() ==> s[j] != '/'
}

/// The final component of a host path: what follows its last `/`.
pub open spec fn final_component(s: Seq<char>) -> Seq<char> {
    if exists|i: int| is_last_slash(s, i) {
        let i = choose|i: int| is_last_slash(s, i);
        s.subrange(i + 1, s.len() as int)
    } else {
        s
    }
}

/// A file name that a copy can be given: not empty, `.` or `..`.
pub open spec fn is_file_name(n: Seq<char>) -> bool {
    n.len() > 0 && n != seq!['.'] && n != seq!['.', '.']
}

proof fn lemma_last_slash_unique(s: Seq<char>, i: int, k: int)
    requires
        is_last_slash(s, i),
        is_last_slash(s, k),
    ensures
        i == k,
{
}

/// The name under which the executable at `command` is staged: the final
/// component of its path, where that is a file name.
pub fn binary_name(command: &str) -> (r: Option<String>)
    ensures
        r is None <==> !is_file_name(final_component(command@)),
        r matches Some(n) ==> n@ == final_component(command@),
{
    let n = command.unicode_len();
    let mut start: usize = n;
    while start > 0 && command.get_char(start - 1) != '/'
        invariant
            n == command@.len(),
            start <= n,
            forall|j: int| start <= j < n ==> command@[j] != '/',
        decreases start,
    {
        start = start - 1;
    }
    let name = command.substring_char(start, n);
    proof {
        if start > 0 {
            assert(is_last_slash(command@, start - 1));
            let k = choose|k: int| is_last_slash(command@, k);
            lemma_last_slash_unique(command@, start - 1, k);
        } else {
            assert(command@.subrange(0, n as int) =~= command@);
            if exists|i: int| is_last_slash(command@, i) {
                let k = choose|i: int| is_last_slash(command@, i);
                assert(command@[k] == '/');
            }
        }
    }
    let len = n - start;
    if len == 0 {
        return None;
    }
    if len == 1 && name.get_char(0) == '.' {
        assert(name@ =~= seq!['.']);
        return None;
    }
    if len == 2 && name.get_char(0) == '.' && name.get_char(1) == '.' {
        assert(name@ =~= seq!['.', '.']);
        return None;
    }
    Some(String::from_str(name))
}

} // verus!
