use vstd::prelude::*;

verus! {

pub open spec fn starts_with(s: Seq<char>, prefix: Seq<char>) -> bool {
    prefix.len() <= s.len() && s.subrange(0, prefix.len() as int) == prefix
}

pub open spec fn ends_with(s: Seq<char>, suffix: Seq<char>) -> bool {
    suffix.len() <= s.len() && s.subrange(s.len() - suffix.len(), s.len() as int) == suffix
}

/// The view of an optional file name; `None` stands for a name that is not
/// valid Unicode.
pub open spec fn name_view(name: Option<&str>) -> Option<Seq<char>> {
    match name {
        Some(s) => Some(s@),
        None => None,
    }
}

/// A directory entry passes the hidden-path filter when its name is valid
/// and either does not start with `.` or is `.` itself.
pub open spec fn passes_hidden(name: Option<Seq<char>>) -> bool {
    match name {
        Some(s) => !starts_with(s, "."@) || s == "."@,
        None => false,
    }
}

/// A directory entry passes the test-path filter when its name is valid,
/// does not start with `test_` and is not `tests`.
pub open spec fn passes_test(name: Option<Seq<char>>) -> bool {
    match name {
        Some(s) => !starts_with(s, "test_"@) && s != "tests"@,
        None => false,
    }
}

pub open spec fn is_python_name(name: Seq<char>) -> bool {
    ends_with(name, ".py"@)
}

fn str_starts_with(s: &str, prefix: &str) -> (r: bool)
    ensures
        r == starts_with(s@, prefix@),
{
    let n = s.unicode_len();
    let m = prefix.unicode_len();
    if m > n {
        return false;
    }
    let mut i: usize = 0;
    while i < m
        invariant
            n == s@.len(),
            m == prefix@.len(),
            m <= n,
            i <= m,
            forall|k: int| 0 <= k < i ==> s@[k] == prefix@[k],
        decreases m - i,
    {
        if s.get_char(i) != prefix.get_char(i) {
            assert(s@.subrange(0, m as int)[i as int] != prefix@[i as int]);
            return false;
        }
        i += 1;
    }
    assert(s@.subrange(0, m as int) =~= prefix@);
    true
}

fn str_ends_with(s: &str, suffix: &str) -> (r: bool)
    ensures
        r == ends_with(s@, suffix@),
{
    let n = s.unicode_len();
    let m = suffix.unicode_len();
    if m > n {
        return false;
    }
    let off = n - m;
    let mut i: usize = 0;
    while i < m
        invariant
            n == s@.len(),
            m == suffix@.len(),
            m <= n,
            off == n - m,
            i <= m,
            forall|k: int| 0 <= k < i ==> s@[off + k] == suffix@[k],
        decreases m - i,
    {
        if s.get_char(off + i) != suffix.get_char(i) {
            assert(s@.subrange(off as int, n as int)[i as int] != suffix@[i as int]);
            return false;
        }
        i += 1;
    }
    assert(s@.subrange(off as int, n as int) =~= suffix@);
    true
}

fn str_equals(s: &str, t: &str) -> (r: bool)
    ensures
        r == (s@ == t@),
{
    String::from_str(s) == String::from_str(t)
}

/// Whether a file name names a Python source file (`.py` suffix).
pub fn is_python_file(name: &str) -> (r: bool)
    ensures
        r == is_python_name(name@),
{
    str_ends_with(name, ".py")
}

/// Leaves out hidden files and directories.
pub struct NotHidden;

impl NotHidden {
    pub fn should_be_processed(&self, name: Option<&str>) -> (r: bool)
        ensures
            r == passes_hidden(name_view(name)),
    {
        match name {
            Some(s) => !str_starts_with(s, ".") || str_equals(s, "."),
            None => false,
        }
    }
}

/// Leaves out test files and test directories.
pub struct NotTest;

impl NotTest {
    pub fn should_be_processed(&self, name: Option<&str>) -> (r: bool)
        ensures
            r == passes_test(name_view(name)),
    {
        match name {
            Some(s) => !str_starts_with(s, "test_") && !str_equals(s, "tests"),
            None => false,
        }
    }
}

/// The set of filters a directory walk applies to each entry it meets; an
/// entry that fails is skipped together with everything below it.
#[derive(Clone, Copy, Debug, PartialEq, Eq, Structural)]
pub struct EntryFilter {
    pub ignore_hidden: bool,
    pub ignore_tests: bool,
}

impl EntryFilter {
    pub open spec fn passes(&self, name: Option<Seq<char>>) -> bool {
        (!self.ignore_hidden || passes_hidden(name)) && (!self.ignore_tests || passes_test(name))
    }

    pub fn should_be_processed(&self, name: Option<&str>) -> (r: bool)
        ensures
            r == self.passes(name_view(name)),
    {
        (!self.ignore_hidden || NotHidden.should_be_processed(name)) && (!self.ignore_tests
            || NotTest.should_be_processed(name))
    }
}

/// With hidden paths ignored, no entry whose name starts with `.` is
/// visited, except `.` itself.
pub proof fn lemma_hidden_never_visited(filter: EntryFilter, name: Seq<char>)
    requires
        filter.ignore_hidden,
        filter.passes(Some(name)),
    ensures
        !starts_with(name, "."@) || name == "."@,
{
}

/// With tests ignored, no entry named `tests` or starting with `test_` is
/// visited.
pub proof fn lemma_tests_never_visited(filter: EntryFilter, name: Seq<char>)
    requires
        filter.ignore_tests,
        filter.passes(Some(name)),
    ensures
        !starts_with(name, "test_"@) && name != "tests"@,
{
}

} // verus!
