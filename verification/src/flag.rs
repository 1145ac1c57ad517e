use vstd::prelude::*;
use vstd::string::StrSliceExecFns;

verus! {

/// A flag a registration site may carry for the code-generation
/// collaborator that emits its entry.  The one flag there is, `Sync`,
/// asks that the generated descriptor's conversion functions be safe to
/// share across threads; it affects only the erasure bound the generated
/// code demands, never the registry itself.
#[derive(Clone, Copy, Debug, PartialEq, Eq, Structural, Hash)]
pub enum Flag {
    Sync,
}

impl Flag {
    /// Reads a flag from its identifier: exactly the name "sync" names
    /// `Sync`; every other identifier is unknown.
    pub fn from_name(name: &str) -> (r: Option<Flag>)
        ensures
            r == (if name@ == "sync"@ {
                Some(Flag::Sync)
            } else {
                None::<Flag>
            }),
    {
        proof {
            reveal_strlit("sync");
        }
        if name.unicode_len() != 4 {
            return None;
        }
        if name.get_char(0) == 's' && name.get_char(1) == 'y' && name.get_char(2) == 'n'
            && name.get_char(3) == 'c' {
            proof {
                assert(name@ =~= "sync"@);
            }
            Some(Flag::Sync)
        } else {
            None
        }
    }
}

} // verus!
