use vstd::prelude::*;

verus! {

/// The identifier looked for in the terminal program environment value: "iTerm".
pub open spec fn iterm_needle() -> Seq<u8> {
    seq![0x69u8, 0x54u8, 0x65u8, 0x72u8, 0x6du8]
}

/// `needle` occurs in `hay` starting at index `i`.
pub open spec fn match_at(hay: Seq<u8>, needle: Seq<u8>, i: int) -> bool {
    &&& 0 <= i
    &&& i + needle.len() <= hay.len()
    &&& hay.subrange(i, i + needle.len() as int) == needle
}

/// `needle` occurs somewhere in `hay`.
pub open spec fn contains_needle(hay: Seq<u8>, needle: Seq<u8>) -> bool {
    exists|i: int| match_at(hay, needle, i)
}

/// What the probe concludes from the terminal program value: support is
/// reported exactly when the value is present and carries the identifier.
pub open spec fn iterm_env_supported(term_program: Option<Seq<u8>>) -> bool {
    match term_program {
        Some(v) => contains_needle(v, iterm_needle()),
        None => false,
    }
}

/// The view of an optional byte string.
pub open spec fn env_view(e: Option<Vec<u8>>) -> Option<Seq<u8>> {
    match e {
        Some(v) => Some(v@),
        None => None,
    }
}

fn needle_matches_at(hay: &Vec<u8>, i: usize) -> (r: bool)
    requires
        i + 5 <= hay@.len(),
    ensures
        r == match_at(hay@, iterm_needle(), i as int),
{
    let n: usize = hay.len();
    let r = hay[i] == 0x69 && hay[i + 1] == 0x54 && hay[i + 2] == 0x65 && hay[i + 3] == 0x72
        && hay[i + 4] == 0x6d;
    proof {
        if r {
            assert(hay@.subrange(i as int, i + 5) =~= iterm_needle());
        } else {
            if hay@.subrange(i as int, i + 5) == iterm_needle() {
                assert(hay@[i as int] == 0x69u8) by {
                    assert(hay@.subrange(i as int, i + 5)[0] == 0x69u8);
                }
                assert(hay@[i + 1] == 0x54u8) by {
                    assert(hay@.subrange(i as int, i + 5)[1] == 0x54u8);
                }
                assert(hay@[i + 2] == 0x65u8) by {
                    assert(hay@.subrange(i as int, i + 5)[2] == 0x65u8);
                }
                assert(hay@[i + 3] == 0x72u8) by {
                    assert(hay@.subrange(i as int, i + 5)[3] == 0x72u8);
                }
                assert(hay@[i + 4] == 0x6du8) by {
                    assert(hay@.subrange(i as int, i + 5)[4] == 0x6du8);
                }
            }
        }
    }
    r
}

/// Returns the terminal's support for the iTerm graphics protocol, judged from
/// the value of the terminal program environment variable: supported exactly
/// when the value is present and contains "iTerm".
pub fn is_iterm_supported(term_program: &Option<Vec<u8>>) -> (r: bool)
    ensures
        r == iterm_env_supported(env_view(*term_program)),
{
    match term_program {
        None => false,
        Some(hay) => contains_iterm(hay),
    }
}

fn contains_iterm(hay: &Vec<u8>) -> (r: bool)
    ensures
        r == contains_needle(hay@, iterm_needle()),
{
    let n: usize = hay.len();
    if n < 5 {
        proof {
            assert(forall|i: int| !match_at(hay@, iterm_needle(), i));
        }
        return false;
    }
    let last: usize = n - 5;
    let mut i: usize = 0;
    while i <= last
        invariant
            hay@.len() == n,
            n >= 5,
            last == n - 5,
            i <= last + 1,
            forall|j: int| 0 <= j < i ==> !match_at(hay@, iterm_needle(), j),
        decreases last + 1 - i,
    {
        if needle_matches_at(hay, i) {
            return true;
        }
        i = i + 1;
    }
    proof {
        assert(forall|j: int| #[trigger] match_at(hay@, iterm_needle(), j) ==> 0 <= j < i);
    }
    false
}

/// The per-process capability cache: each protocol's flag is computed on first
/// query and kept for the rest of the run.
pub struct Capabilities {
    pub iterm: Option<bool>,
}

/// What a probe through the cache reports: the cached value where one exists,
/// else the verdict drawn from the environment value.
pub open spec fn probed_iterm(cache: Option<bool>, env: Option<Seq<u8>>) -> bool {
    match cache {
        Some(b) => b,
        None => iterm_env_supported(env),
    }
}

impl Capabilities {
    /// A fresh cache with nothing probed yet.
    pub fn new() -> (c: Capabilities)
        ensures
            c.iterm is None,
    {
        Capabilities { iterm: None }
    }

    /// Memoized probe: the first call computes the flag from the environment
    /// value; every later call returns the cached flag unchanged, whatever the
    /// environment value has become.
    pub fn supports_iterm(&mut self, term_program: &Option<Vec<u8>>) -> (r: bool)
        ensures
            r == probed_iterm(old(self).iterm, env_view(*term_program)),
            final(self).iterm == Some(r),
    {
        match self.iterm {
            Some(b) => b,
            None => {
                let b = is_iterm_supported(term_program);
                self.iterm = Some(b);
                b
            },
        }
    }
}

} // verus!
