//! A snapshot of environment variables, looked up by name.
use vstd::prelude::*;

verus! {

/// The value the first entry named `key` holds, if any.
pub open spec fn env_lookup(env: Seq<(Seq<char>, Seq<char>)>, key: Seq<char>) -> Option<Seq<char>>
    decreases env.len(),
{
    if env.len() == 0 {
        None
    } else if env[0].0 == key {
        Some(env[0].1)
    } else {
        env_lookup(env.drop_first(), key)
    }
}

/// Environment variables as (name, value) pairs, in the order the process
/// reported them.
pub struct EnvVars {
    vars: Vec<(String, String)>,
}

impl View for EnvVars {
    type V = Seq<(Seq<char>, Seq<char>)>;

    closed spec fn view(&self) -> Seq<(Seq<char>, Seq<char>)> {
        self.vars@.map_values(|p: (String, String)| (p.0@, p.1@))
    }
}

impl EnvVars {
    /// A snapshot with no variables set.
    pub fn new() -> (r: Self)
        ensures
            r@ == Seq::<(Seq<char>, Seq<char>)>::empty(),
    {
        let r = EnvVars { vars: Vec::new() };
        assert(r@ =~= Seq::<(Seq<char>, Seq<char>)>::empty());
        r
    }

    /// Records that `key` is set to `value`; an earlier entry of the same
    /// name keeps precedence.
    pub fn set(&mut self, key: String, value: String)
        ensures
            final(self)@ == old(self)@.push((key@, value@)),
    {
        self.vars.push((key, value));
        assert(self@ =~= old(self)@.push((key@, value@)));
    }

    /// The value of `key`, if it is set.
    pub fn get(&self, key: &str) -> (r: Option<&str>)
        ensures
            match env_lookup(self@, key@) {
                Some(v) => r matches Some(x) && x@ == v,
                None => r is None,
            },
    {
        let ghost all = self@;
        let k = String::from_str(key);
        let mut i: usize = 0;
        assert(all.skip(0) =~= all);
        while i < self.vars.len()
            invariant
                i <= self.vars.len(),
                all == self@,
                k@ == key@,
                env_lookup(all, key@) == env_lookup(all.skip(i as int), key@),
            decreases self.vars.len() - i,
        {
            assert(all.skip(i as int)[0] == all[i as int]);
            if self.vars[i].0 == k {
                return Some(self.vars[i].1.as_str());
            }
            assert(all.skip(i as int).drop_first() =~= all.skip(i + 1));
            i = i + 1;
        }
        None
    }
}

} // verus!
