//! The GPU architecture that CUDA images are built for, in the form
//! `sm_{numeric compute capability}`.
//!
//! The caller reads the environment variable `CUDA_ARCH` and the output of
//! `nvidia-smi --query-gpu=compute_cap --format=csv,noheader`; these
//! functions decide what to make of them.
use crate::text::{parses_as_usize, parses_usize, trim, trim_str, without_char};
use vstd::prelude::*;

verus! {

/// The characters of `s` before its first `\n`, or all of `s`.
pub open spec fn first_segment(s: Seq<char>) -> Seq<char>
    decreases s.len(),
{
    if s.len() == 0 {
        s
    } else if s[0] == '\n' {
        Seq::empty()
    } else {
        seq![s[0]] + first_segment(s.drop_first())
    }
}

/// The compute capability that the first line of the query's output
/// reports, trimmed; none when the output is empty.
pub open spec fn compute_cap_of(stdout: Seq<char>) -> Option<Seq<char>> {
    if stdout.len() == 0 {
        None
    } else {
        Some(trim(first_segment(stdout)))
    }
}

/// Whether `s` names a GPU architecture: `sm_` followed by a number.
pub open spec fn is_cuda_arch(s: Seq<char>) -> bool {
    s.len() >= 3 && s.subrange(0, 3) == "sm_"@ && parses_as_usize(s.skip(3))
}

/// The architecture a compute capability stands for: `sm_` and the
/// capability without its dots (`8.9` gives `sm_89`).
pub open spec fn arch_of_compute_cap(cap: Seq<char>) -> Seq<char> {
    "sm_"@ + without_char(cap, '.')
}

/// The architecture chosen, the first valid value among: `CUDA_ARCH` from
/// the environment when it has the form `sm_{number}`; the one derived from
/// the detected compute capability. None when there is neither.
pub open spec fn chosen_cuda_arch(env_value: Option<Seq<char>>, compute_cap: Option<Seq<char>>) -> Option<Seq<char>> {
    match env_value {
        Some(v) if is_cuda_arch(v) => Some(v),
        _ => match compute_cap {
            Some(c) => Some(arch_of_compute_cap(c)),
            None => None,
        },
    }
}

proof fn lemma_first_segment(s: Seq<char>, i: int)
    requires
        0 <= i <= s.len(),
        forall|j: int| 0 <= j < i ==> #[trigger] s[j] != '\n',
        i == s.len() || s[i] == '\n',
    ensures
        first_segment(s) == s.take(i),
    decreases i,
{
    if i == 0 {
        assert(s.take(0) =~= Seq::<char>::empty());
    } else {
        lemma_first_segment(s.drop_first(), i - 1);
        assert(seq![s[0]] + s.drop_first().take(i - 1) =~= s.take(i));
    }
}

/// The compute capability reported on the first line of `nvidia-smi`'s
/// output, trimmed; `None` when the output is empty.
pub fn compute_cap_from_output(stdout: &str) -> (r: Option<String>)
    ensures
        match compute_cap_of(stdout@) {
            Some(c) => r matches Some(x) && x@ == c,
            None => r is None,
        },
{
    let n = stdout.unicode_len();
    if n == 0 {
        return None;
    }
    let mut i: usize = 0;
    while i < n && stdout.get_char(i) != '\n'
        invariant
            n == stdout@.len(),
            i <= n,
            forall|j: int| 0 <= j < i ==> #[trigger] stdout@[j] != '\n',
        decreases n - i,
    {
        i = i + 1;
    }
    proof {
        lemma_first_segment(stdout@, i as int);
    }
    let line = stdout.substring_char(0, i);
    assert(line@ =~= stdout@.take(i as int));
    Some(trim_str(line))
}

/// Whether `s` names a GPU architecture: `sm_` followed by a number.
pub fn valid_cuda_arch(s: &str) -> (r: bool)
    ensures
        r == is_cuda_arch(s@),
{
    let n = s.unicode_len();
    if n < 3 {
        return false;
    }
    let head = s.substring_char(0, 3);
    if !crate::text::same_text(head, "sm_") {
        return false;
    }
    let rest = s.substring_char(3, n);
    assert(rest@ =~= s@.skip(3));
    parses_usize(rest)
}

/// `s` with every `.` removed.
pub fn remove_dots(s: &str) -> (r: String)
    ensures
        r@ == without_char(s@, '.'),
{
    let n = s.unicode_len();
    let mut r = String::new();
    let mut i: usize = 0;
    while i < n
        invariant
            n == s@.len(),
            i <= n,
            r@ == without_char(s@.take(i as int), '.'),
        decreases n - i,
    {
        let c = s.get_char(i);
        assert(s@.take(i + 1).drop_last() =~= s@.take(i as int));
        if c != '.' {
            r.append(s.substring_char(i, i + 1));
            assert(s@.subrange(i as int, i + 1) =~= seq![c]);
        }
        i = i + 1;
    }
    assert(s@.take(n as int) =~= s@);
    r
}

/// The GPU architecture for a compute capability: `sm_` and the capability
/// without its dots.
pub fn arch_from_compute_cap(cap: &str) -> (r: String)
    ensures
        r@ == arch_of_compute_cap(cap@),
{
    let mut r = String::from_str("sm_");
    let digits = remove_dots(cap);
    r.append(digits.as_str());
    r
}

/// The GPU architecture to build for: `env_value` is the value of
/// `CUDA_ARCH` when it is set, `compute_cap` the capability detected on the
/// first visible GPU, if any (the caller needs to detect it only when
/// `CUDA_ARCH` is not valid).
pub fn cuda_arch(env_value: Option<&str>, compute_cap: Option<&str>) -> (r: Option<String>)
    ensures
        match chosen_cuda_arch(
            match env_value {
                Some(v) => Some(v@),
                None => None,
            },
            match compute_cap {
                Some(c) => Some(c@),
                None => None,
            },
        ) {
            Some(a) => r matches Some(x) && x@ == a,
            None => r is None,
        },
{
    match env_value {
        Some(v) => {
            if valid_cuda_arch(v) {
                return Some(String::from_str(v));
            }
        },
        None => {},
    }
    match compute_cap {
        Some(c) => Some(arch_from_compute_cap(c)),
        None => None,
    }
}

/// How many times `c` occurs in `s`.
pub open spec fn count_char(s: Seq<char>, c: char) -> nat
    decreases s.len(),
{
    if s.len() == 0 {
        0
    } else {
        count_char(s.drop_last(), c) + if s.last() == c {
            1nat
        } else {
            0nat
        }
    }
}

/// Removing `c` from `s` leaves every other character, in order: as many
/// as `s` has characters other than `c`, none of them `c`, and all of `s`
/// when `c` does not occur in it.
proof fn lemma_without_char(s: Seq<char>, c: char)
    ensures
        without_char(s, c).len() + count_char(s, c) == s.len(),
        forall|i: int| 0 <= i < without_char(s, c).len() ==> #[trigger] without_char(s, c)[i] != c,
        count_char(s, c) == 0 ==> without_char(s, c) == s,
    decreases s.len(),
{
    if s.len() > 0 {
        lemma_without_char(s.drop_last(), c);
        if count_char(s, c) == 0 {
            assert(s.drop_last().push(s.last()) =~= s);
        }
    }
}

/// Removing `c` from a concatenation removes it from each part.
proof fn lemma_without_char_append(x: Seq<char>, y: Seq<char>, c: char)
    ensures
        without_char(x + y, c) == without_char(x, c) + without_char(y, c),
    decreases y.len(),
{
    if y.len() == 0 {
        assert(x + y =~= x);
        assert(without_char(x, c) + without_char(y, c) =~= without_char(x, c));
    } else {
        assert((x + y).drop_last() =~= x + y.drop_last());
        assert((x + y).last() == y.last());
        lemma_without_char_append(x, y.drop_last(), c);
        if y.last() == c {
        } else {
            assert(without_char(x, c) + without_char(y.drop_last(), c).push(y.last()) =~= (without_char(x, c)
                + without_char(y.drop_last(), c)).push(y.last()));
        }
    }
}

/// The architecture of a compute capability `cap` is `sm_` followed by
/// every character of `cap` but its dots, in order: it is three characters
/// longer than `cap` without its dots, holds no dot after `sm_`, is `sm_`
/// and `cap` itself for a capability without a dot, and is
/// `sm_{major}{minor}` for a capability `{major}.{minor}`.
pub proof fn lemma_arch_of_compute_cap(cap: Seq<char>, major: Seq<char>, minor: Seq<char>)
    ensures
        arch_of_compute_cap(cap).len() == 3 + cap.len() - count_char(cap, '.'),
        arch_of_compute_cap(cap).take(3) == "sm_"@,
        forall|i: int| 3 <= i < arch_of_compute_cap(cap).len() ==> #[trigger] arch_of_compute_cap(cap)[i] != '.',
        count_char(cap, '.') == 0 ==> arch_of_compute_cap(cap) == "sm_"@ + cap,
        count_char(major, '.') == 0 && count_char(minor, '.') == 0 ==> arch_of_compute_cap(major + seq!['.'] + minor)
            == "sm_"@ + major + minor,
{
    reveal_strlit("sm_");
    lemma_without_char(cap, '.');
    let w = without_char(cap, '.');
    assert(("sm_"@ + w).take(3) =~= "sm_"@);
    assert forall|i: int| 3 <= i < ("sm_"@ + w).len() implies #[trigger] ("sm_"@ + w)[i] != '.' by {
        assert(("sm_"@ + w)[i] == w[i - 3]);
    }
    if count_char(major, '.') == 0 && count_char(minor, '.') == 0 {
        lemma_without_char(major, '.');
        lemma_without_char(minor, '.');
        lemma_without_char_append(major + seq!['.'], minor, '.');
        lemma_without_char_append(major, seq!['.'], '.');
        assert(seq!['.'].drop_last() =~= Seq::<char>::empty());
        assert(seq!['.'].last() == '.');
        assert(without_char(Seq::<char>::empty(), '.') =~= Seq::<char>::empty());
        assert(without_char(seq!['.'], '.') =~= Seq::<char>::empty());
        assert(major + Seq::<char>::empty() =~= major);
        assert("sm_"@ + (major + minor) =~= "sm_"@ + major + minor);
    }
}

} // verus!
