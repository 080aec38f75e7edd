use vstd::prelude::*;

verus! {

/// A raw command tagged by its leading keyword.
#[derive(Debug, Clone, PartialEq)]
pub enum SQLQuery {
    CreateTable(String),
    Select(String),
    Insert(String),
    Update(String),
    Delete(String),
    Unknown(String),
}

/// The characters with the Unicode `White_Space` property.
pub open spec fn is_white_space(c: char) -> bool {
    let u = c as u32;
    u == 0x20 || (0x09 <= u && u <= 0x0d) || u == 0x85 || u == 0xa0 || u == 0x1680 || (0x2000 <= u
        && u <= 0x200a) || u == 0x2028 || u == 0x2029 || u == 0x202f || u == 0x205f || u == 0x3000
}

/// `s` without its leading white space.
pub open spec fn skip_white(s: Seq<char>) -> Seq<char>
    decreases s.len(),
{
    if s.len() > 0 && is_white_space(s[0]) {
        skip_white(s.drop_first())
    } else {
        s
    }
}

/// The characters of `s` before its first white space.
pub open spec fn leading_word(s: Seq<char>) -> Seq<char>
    decreases s.len(),
{
    if s.len() > 0 && !is_white_space(s[0]) {
        seq![s[0]] + leading_word(s.drop_first())
    } else {
        Seq::empty()
    }
}

/// The first white-space separated word of `s`; empty when `s` holds only white space.
pub open spec fn first_word(s: Seq<char>) -> Seq<char> {
    leading_word(skip_white(s))
}

/// The tag of `command`, by its first word.
pub open spec fn classify(command: String) -> SQLQuery {
    let w = first_word(command@);
    if w == "create"@ {
        SQLQuery::CreateTable(command)
    } else if w == "select"@ {
        SQLQuery::Select(command)
    } else if w == "insert"@ {
        SQLQuery::Insert(command)
    } else if w == "update"@ {
        SQLQuery::Update(command)
    } else if w == "delete"@ {
        SQLQuery::Delete(command)
    } else {
        SQLQuery::Unknown(command)
    }
}

/// Whether `c` is white space.
fn white_space(c: char) -> (r: bool)
    ensures
        r == is_white_space(c),
{
    let u = c as u32;
    u == 0x20 || (0x09 <= u && u <= 0x0d) || u == 0x85 || u == 0xa0 || u == 0x1680 || (0x2000 <= u
        && u <= 0x200a) || u == 0x2028 || u == 0x2029 || u == 0x202f || u == 0x205f || u == 0x3000
}

/// Whether the characters of `s` from `from` to `to` spell `w`.
fn spells(s: &str, from: usize, to: usize, w: &str) -> (r: bool)
    requires
        from <= to <= s@.len(),
    ensures
        r == (s@.subrange(from as int, to as int) == w@),
{
    if to - from != w.unicode_len() {
        return false;
    }
    let mut k: usize = 0;
    while k < to - from
        invariant
            from <= to <= s@.len(),
            to - from == w@.len(),
            k <= to - from,
            forall|a: int| 0 <= a < k ==> s@[from + a] == w@[a],
        decreases to - from - k,
    {
        if s.get_char(from + k) != w.get_char(k) {
            assert(s@.subrange(from as int, to as int)[k as int] != w@[k as int]);
            return false;
        }
        k = k + 1;
    }
    assert(s@.subrange(from as int, to as int) =~= w@);
    true
}

impl SQLQuery {
    /// Tags `command` by its first white-space separated word: `create`, `select`, `insert`,
    /// `update` or `delete`, compared exactly; any other word, or none, gives `Unknown`.
    pub fn new(command: String) -> (r: SQLQuery)
        ensures
            r == classify(command),
    {
        let s = command.as_str();
        let n = s.unicode_len();
        let mut i: usize = 0;
        assert(s@.subrange(0, n as int) =~= s@);
        while i < n && white_space(s.get_char(i))
            invariant
                n == s@.len(),
                i <= n,
                skip_white(s@) == skip_white(s@.subrange(i as int, n as int)),
            decreases n - i,
        {
            assert(s@.subrange(i as int, n as int).drop_first() =~= s@.subrange(i + 1, n as int));
            i = i + 1;
        }
        assert(skip_white(s@.subrange(i as int, n as int)) == s@.subrange(i as int, n as int));
        let mut j: usize = i;
        while j < n && !white_space(s.get_char(j))
            invariant
                n == s@.len(),
                i <= j <= n,
                leading_word(s@.subrange(i as int, n as int)) == s@.subrange(i as int, j as int)
                    + leading_word(s@.subrange(j as int, n as int)),
            decreases n - j,
        {
            assert(s@.subrange(j as int, n as int).drop_first() =~= s@.subrange(j + 1, n as int));
            assert(s@.subrange(i as int, j + 1) =~= s@.subrange(i as int, j as int) + seq![s@[j as int]]);
            j = j + 1;
        }
        assert(s@.subrange(i as int, j as int) + leading_word(s@.subrange(j as int, n as int))
            =~= s@.subrange(i as int, j as int));
        assert(first_word(command@) == s@.subrange(i as int, j as int));
        if spells(s, i, j, "create") {
            SQLQuery::CreateTable(command)
        } else if spells(s, i, j, "select") {
            SQLQuery::Select(command)
        } else if spells(s, i, j, "insert") {
            SQLQuery::Insert(command)
        } else if spells(s, i, j, "update") {
            SQLQuery::Update(command)
        } else if spells(s, i, j, "delete") {
            SQLQuery::Delete(command)
        } else {
            SQLQuery::Unknown(command)
        }
    }
}

} // verus!
