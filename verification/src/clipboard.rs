//! The clipboard boundary: an injected set/get collaborator, the thin copy
//! entry point, and the verified joining of several extracted contents
//! into the one string that is placed on the clipboard.

use vstd::prelude::*;
use vstd::string::StringExecFns;

use crate::error::CatboardError;

verus! {

/// The clipboard collaborator: one set/get pair on an OS-level buffer.
/// A production implementation talks to the system clipboard; tests use
/// an in-memory mock.
pub trait Clipboard {
    fn set_text(&mut self, text: &str) -> Result<(), CatboardError>;

    fn get_text(&mut self) -> Result<String, CatboardError>;
}

/// Copy text to the given clipboard, handing it over unmodified.
pub fn copy_to_clipboard<C: Clipboard>(text: &str, clipboard: &mut C) -> Result<(), CatboardError> {
    clipboard.set_text(text)
}

/// The contents joined with a single newline between every two pieces.
pub open spec fn spec_join_all(texts: Seq<Seq<char>>) -> Seq<char>
    decreases texts.len(),
{
    if texts.len() == 0 {
        Seq::empty()
    } else if texts.len() == 1 {
        texts.last()
    } else {
        spec_join_all(texts.drop_last()) + "\n"@ + texts.last()
    }
}

/// Join the extracted contents of several files with newlines into the one
/// string handed to the clipboard; with nothing to join, fail with
/// `NoFilesSpecified`.
pub fn combine_contents(contents: &Vec<String>) -> (r: Result<String, CatboardError>)
    ensures
        contents@.len() == 0 ==> (r matches Err(e) && e is NoFilesSpecified),
        contents@.len() > 0 ==> (r matches Ok(s) && s@ == spec_join_all(contents.deep_view())),
{
    let ghost tv = contents.deep_view();
    if contents.len() == 0 {
        return Err(CatboardError::NoFilesSpecified);
    }
    let mut acc = contents[0].clone();
    proof {
        assert(tv.take(1).last() == tv[0]);
        assert(tv[0] == contents@[0]@);
    }
    let mut i: usize = 1;
    while i < contents.len()
        invariant
            1 <= i <= contents@.len(),
            tv == contents.deep_view(),
            acc@ == spec_join_all(tv.take(i as int)),
        decreases contents@.len() - i,
    {
        proof {
            assert(tv.take((i + 1) as int).drop_last() =~= tv.take(i as int));
            assert(tv.take((i + 1) as int).last() == tv[i as int]);
            assert(tv[i as int] == contents@[i as int]@);
        }
        acc.append("\n");
        acc.append(contents[i].as_str());
        i = i + 1;
    }
    proof {
        assert(tv.take(contents@.len() as int) =~= tv);
    }
    Ok(acc)
}

} // verus!
