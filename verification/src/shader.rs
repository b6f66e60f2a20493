use vstd::prelude::*;
use vstd::string::StrSliceExecFns;

verus! {

broadcast use vstd::string::group_string_axioms;

/// The line that separates a shader source's preamble from its body: `////`.
pub open spec fn separator() -> Seq<char> {
    seq!['/', '/', '/', '/', '\n']
}

/// Whether the separator line starts at position `i` of `s`.
pub open spec fn separator_at(s: Seq<char>, i: int) -> bool {
    0 <= i && i + 5 <= s.len() && s.subrange(i, i + 5) == separator()
}

/// The source that is handed to the shader compiler: from the first
/// separator line on, or all of it when there is none.
pub open spec fn shader_body(s: Seq<char>) -> Seq<char> {
    if exists|i: int| separator_at(s, i) {
        let i = choose|i: int| separator_at(s, i) && forall|j: int| 0 <= j < i ==> !separator_at(s, j);
        s.subrange(i, s.len() as int)
    } else {
        s
    }
}

/// Among positions with a separator, there is a first one.
proof fn lemma_first_separator(s: Seq<char>, k: int)
    requires
        separator_at(s, k),
    ensures
        exists|i: int| separator_at(s, i) && forall|j: int| 0 <= j < i ==> !separator_at(s, j),
    decreases k,
{
    if exists|j: int| 0 <= j < k && separator_at(s, j) {
        let j = choose|j: int| 0 <= j < k && separator_at(s, j);
        lemma_first_separator(s, j);
    }
}

/// Drops what comes before the first `////` line of a shader source (kept
/// for editors), so that the compiler sees only what follows.
pub fn fix_shader_source<'a>(source: &'a str) -> (fixed: &'a str)
    ensures
        fixed@ == shader_body(source@),
{
    let mut cs: Vec<char> = Vec::new();
    let n = source.unicode_len();
    let mut k: usize = 0;
    while k < n
        invariant
            n == source@.len(),
            k <= n,
            cs@ == source@.subrange(0, k as int),
        decreases n - k,
    {
        cs.push(source.get_char(k));
        k = k + 1;
        assert(cs@ =~= source@.subrange(0, k as int));
    }
    let mut i: usize = 0;
    while n >= 5 && i <= n - 5
        invariant
            n == source@.len(),
            cs@ == source@,
            forall|j: int| 0 <= j < i ==> !separator_at(source@, j),
        decreases n - i,
    {
        if cs[i] == '/' && cs[i + 1] == '/' && cs[i + 2] == '/' && cs[i + 3] == '/' && cs[i + 4] == '\n' {
            proof {
                assert(source@.subrange(i as int, i + 5) =~= separator());
                assert(separator_at(source@, i as int));
                lemma_first_separator(source@, i as int);
                let f = choose|f: int|
                    separator_at(source@, f) && forall|j: int| 0 <= j < f ==> !separator_at(source@, j);
                assert(f == i) by {
                    if f < i {
                    } else if f > i {
                    }
                }
            }
            return source.substring_char(i, n);
        }
        proof {
            if separator_at(source@, i as int) {
                assert(source@.subrange(i as int, i + 5)[0] == '/');
                assert(source@.subrange(i as int, i + 5)[4] == '\n');
                assert(source@.subrange(i as int, i + 5)[1] == '/');
                assert(source@.subrange(i as int, i + 5)[2] == '/');
                assert(source@.subrange(i as int, i + 5)[3] == '/');
            }
        }
        i = i + 1;
    }
    proof {
        assert forall|j: int| !separator_at(source@, j) by {
            if 0 <= j < i {
            }
        }
    }
    source
}

} // verus!
