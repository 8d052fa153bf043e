use vstd::prelude::*;

verus! {

/// The key-value settings a material is created from: a shader name and the settings in
/// the order they were made. The engine object is built by replaying them.
pub struct KeyValues {
    pub shader: String,
    pub entries: Vec<(String, String)>,
}

/// A setting as plain values.
pub open spec fn pair_view(p: (String, String)) -> (Seq<char>, Seq<char>) {
    (p.0@, p.1@)
}

/// The value set last for `key`, if any.
pub open spec fn last_value(entries: Seq<(Seq<char>, Seq<char>)>, key: Seq<char>) -> Option<Seq<char>>
    decreases entries.len(),
{
    if entries.len() == 0 {
        None
    } else if entries.last().0 == key {
        Some(entries.last().1)
    } else {
        last_value(entries.drop_last(), key)
    }
}

impl View for KeyValues {
    type V = (Seq<char>, Seq<(Seq<char>, Seq<char>)>);

    open spec fn view(&self) -> (Seq<char>, Seq<(Seq<char>, Seq<char>)>) {
        (self.shader@, self.entries@.map_values(|p: (String, String)| pair_view(p)))
    }
}

impl KeyValues {
    /// Settings for a material of the given shader, with nothing set yet. The engine keeps
    /// the object made from them alive for the rest of the process.
    pub fn new_leaked(shader: &str) -> (kv: Self)
        ensures
            kv@ == (shader@, Seq::<(Seq<char>, Seq<char>)>::empty()),
    {
        let kv = KeyValues { shader: String::from_str(shader), entries: Vec::new() };
        assert(kv@.1 =~= Seq::<(Seq<char>, Seq<char>)>::empty());
        kv
    }

    /// Sets `key` to `value`.
    pub fn set(&mut self, key: &str, value: &str)
        ensures
            final(self)@ == (old(self)@.0, old(self)@.1.push((key@, value@))),
    {
        self.entries.push((String::from_str(key), String::from_str(value)));
        assert(self@.1 =~= old(self)@.1.push((key@, value@)));
    }

    /// The value set last for `key`.
    pub fn get(&self, key: &str) -> (r: Option<&String>)
        ensures
            match r {
                Some(v) => last_value(self@.1, key@) == Some(v@),
                None => last_value(self@.1, key@) is None,
            },
    {
        let k = String::from_str(key);
        let mut i = self.entries.len();
        assert(self@.1.take(i as int) =~= self@.1);
        while i > 0
            invariant
                i <= self.entries.len(),
                k@ == key@,
                last_value(self@.1, key@) == last_value(self@.1.take(i as int), key@),
            decreases i,
        {
            assert(self@.1.take(i as int).last() == pair_view(self.entries@[i - 1]));
            assert(self@.1.take(i as int).drop_last() =~= self@.1.take(i - 1));
            if self.entries[i - 1].0 == k {
                return Some(&self.entries[i - 1].1);
            }
            i = i - 1;
        }
        None
    }
}

/// What is read back is what was written: after setting `key` to `value`, the value of
/// `key` is `value`, and the value of any other key is what it was.
pub proof fn law_get_after_set(kv: (Seq<char>, Seq<(Seq<char>, Seq<char>)>), key: Seq<char>, value: Seq<char>, other: Seq<char>)
    ensures
        last_value(kv.1.push((key, value)), key) == Some(value),
        other != key ==> last_value(kv.1.push((key, value)), other) == last_value(kv.1, other),
{
    assert(kv.1.push((key, value)).drop_last() =~= kv.1);
}

} // verus!
