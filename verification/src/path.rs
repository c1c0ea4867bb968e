use vstd::prelude::*;

verus! {

/// The text that marks a path as naming a file in the STL format.
pub open spec fn stl_marker() -> Seq<char> {
    seq!['.', 's', 't', 'l']
}

/// `pattern` stands in `text` at position `at`.
pub open spec fn occurs_at(text: Seq<char>, pattern: Seq<char>, at: int) -> bool {
    0 <= at && at + pattern.len() <= text.len() && text.subrange(at, at + pattern.len())
        == pattern
}

/// `pattern` stands somewhere in `text`.
pub open spec fn contains(text: Seq<char>, pattern: Seq<char>) -> bool {
    exists|at: int| occurs_at(text, pattern, at)
}

/// A path names a file that has to be converted before it can be loaded when
/// the STL marker stands anywhere in it.
pub open spec fn wants_conversion(path: Seq<char>) -> bool {
    contains(path, stl_marker())
}

/// The marker stands at `at` exactly when its four characters do.
proof fn lemma_marker_at(text: Seq<char>, at: int)
    requires
        0 <= at,
        at + 4 <= text.len(),
    ensures
        occurs_at(text, stl_marker(), at) <==> (text[at] == '.' && text[at + 1] == 's' && text[at
            + 2] == 't' && text[at + 3] == 'l'),
{
    let part = text.subrange(at, at + 4);
    assert(stl_marker().len() == 4);
    assert(part[0] == text[at] && part[1] == text[at + 1] && part[2] == text[at + 2] && part[3]
        == text[at + 3]);
    if text[at] == '.' && text[at + 1] == 's' && text[at + 2] == 't' && text[at + 3] == 'l' {
        assert(part =~= stl_marker());
    }
    if part == stl_marker() {
        assert(stl_marker()[0] == '.' && stl_marker()[1] == 's' && stl_marker()[2] == 't'
            && stl_marker()[3] == 'l');
    }
}

/// Tells whether `path` names a file that has to be converted before it can
/// be loaded.
pub fn needs_conversion(path: &Vec<char>) -> (convert: bool)
    ensures
        convert == wants_conversion(path@),
{
    let len: usize = path.len();
    if len < 4 {
        assert(!wants_conversion(path@)) by {
            assert(stl_marker().len() == 4);
        }
        return false;
    }
    let last: usize = len - 4;
    let mut at: usize = 0;
    while at <= last
        invariant
            len == path@.len(),
            last == len - 4,
            at <= last + 1,
            forall|earlier: int| 0 <= earlier < at ==> !occurs_at(path@, stl_marker(), earlier),
        decreases last + 1 - at,
    {
        proof {
            lemma_marker_at(path@, at as int);
        }
        if path[at] == '.' && path[at + 1] == 's' && path[at + 2] == 't' && path[at + 3] == 'l' {
            return true;
        }
        at += 1;
    }
    assert(!wants_conversion(path@)) by {
        assert(stl_marker().len() == 4);
    }
    false
}

} // verus!
