use vstd::prelude::*;
use vstd::string::StringExecFns;

verus! {

/// What a sequence of (key, value) pairs binds `k` to: the value of the
/// first pair whose key is `k`, if any.
pub open spec fn lookup_in(s: Seq<(Seq<char>, Seq<char>)>, k: Seq<char>) -> Option<Seq<char>>
    decreases s.len(),
{
    if s.len() == 0 {
        None
    } else if s[0].0 == k {
        Some(s[0].1)
    } else {
        lookup_in(s.drop_first(), k)
    }
}

/// A command's argument payload: named string values, looked up by key.
pub struct Args {
    pairs: Vec<(String, String)>,
}

impl View for Args {
    type V = Seq<(Seq<char>, Seq<char>)>;

    closed spec fn view(&self) -> Seq<(Seq<char>, Seq<char>)> {
        self.pairs@.map(|i: int, p: (String, String)| (p.0@, p.1@))
    }
}

impl Args {
    /// An empty payload.
    pub fn new() -> (r: Args)
        ensures
            r@ == Seq::<(Seq<char>, Seq<char>)>::empty(),
    {
        Args { pairs: Vec::new() }
    }

    /// Appends one named value.
    pub fn push(&mut self, key: String, value: String)
        ensures
            final(self)@ == old(self)@.push((key@, value@)),
    {
        self.pairs.push((key, value));
        proof {
            assert(final(self)@ =~= old(self)@.push((key@, value@)));
        }
    }

    /// Looks `key` up; `None` exactly when no pair carries it.
    pub fn get(&self, key: &str) -> (r: Option<String>)
        ensures
            match lookup_in(self@, key@) {
                Some(val) => r matches Some(v) && v@ == val,
                None => r is None,
            },
    {
        let k = String::from_str(key);
        let n = self.pairs.len();
        let mut i: usize = 0;
        proof {
            assert(self@.skip(0) =~= self@);
        }
        while i < n
            invariant
                0 <= i <= n,
                n == self.pairs@.len(),
                k@ == key@,
                lookup_in(self@.skip(i as int), key@) == lookup_in(self@, key@),
            decreases n - i,
        {
            proof {
                lemma_lookup_step(self@, i as int);
            }
            if self.pairs[i].0 == k {
                return Some(self.pairs[i].1.clone());
            }
            i = i + 1;
        }
        None
    }
}

/// Stepping one pair forward in a lookup scan: the suffix starting at
/// `i` binds the key either at pair `i` itself or in the rest.
proof fn lemma_lookup_step(s: Seq<(Seq<char>, Seq<char>)>, i: int)
    requires
        0 <= i < s.len(),
    ensures
        s.skip(i).len() == s.len() - i,
        s.skip(i)[0] == s[i],
        s.skip(i).drop_first() =~= s.skip(i + 1),
{
    assert(s.skip(i).drop_first() =~= s.skip(i + 1));
}

} // verus!
