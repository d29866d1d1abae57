//! Connections to a remote system and the builder of their parameters.
use vstd::prelude::*;

use crate::error::{RfcErrorInfo, Warning};
use crate::rc::{check_handle, take_spec, HandleSlot, RfcRc};
use crate::uc::{from_str, sap_uc_of};

verus! {

/// The parameters as a map, the later of two entries with one key winning.
pub open spec fn entries_map(e: Seq<(Seq<char>, Seq<char>)>) -> Map<Seq<char>, Seq<char>>
    decreases e.len(),
{
    if e.len() == 0 {
        Map::empty()
    } else {
        entries_map(e.drop_last()).insert(e.last().0, e.last().1)
    }
}

pub open spec fn keys_unique(e: Seq<(Seq<char>, Seq<char>)>) -> bool {
    forall|i: int, j: int| 0 <= i < j < e.len() ==> (#[trigger] e[i]).0 != (#[trigger] e[j]).0
}

proof fn lemma_entries_map_update(e: Seq<(Seq<char>, Seq<char>)>, j: int, k: Seq<char>, v: Seq<char>)
    requires
        keys_unique(e),
        0 <= j < e.len(),
        e[j].0 == k,
    ensures
        entries_map(e.update(j, (k, v))) == entries_map(e).insert(k, v),
    decreases e.len(),
{
    let f = e.update(j, (k, v));
    if j == e.len() - 1 {
        assert(f.drop_last() =~= e.drop_last());
        assert(entries_map(f) =~= entries_map(e).insert(k, v));
    } else {
        assert(f.drop_last() =~= e.drop_last().update(j, (k, v)));
        lemma_entries_map_update(e.drop_last(), j, k, v);
        assert(e.last().0 != k);
        assert(entries_map(f) =~= entries_map(e).insert(k, v));
    }
}

/// Parameters for opening a connection, all held as text: setting a
/// parameter to `0` or to `"0"` is the same. Setting a key again replaces
/// its value; the entries keep the order in which their keys first came.
#[derive(Debug)]
pub struct RfcConnectionBuilder {
    params: Vec<(String, String)>,
}

impl RfcConnectionBuilder {
    /// The entries, in the order in which their keys were first set.
    pub closed spec fn entries(&self) -> Seq<(Seq<char>, Seq<char>)> {
        self.params@.map_values(|p: (String, String)| (p.0@, p.1@))
    }

    #[verifier::type_invariant]
    closed spec fn inv(&self) -> bool {
        keys_unique(self.entries())
    }
}

impl View for RfcConnectionBuilder {
    type V = Map<Seq<char>, Seq<char>>;

    open spec fn view(&self) -> Map<Seq<char>, Seq<char>> {
        entries_map(self.entries())
    }
}

impl RfcConnectionBuilder {
    /// A builder with no parameters.
    pub fn new() -> (r: RfcConnectionBuilder)
        ensures
            r@ == Map::<Seq<char>, Seq<char>>::empty(),
            r.entries() == Seq::<(Seq<char>, Seq<char>)>::empty(),
    {
        let r = RfcConnectionBuilder { params: Vec::new() };
        proof {
            assert(r.entries() =~= Seq::<(Seq<char>, Seq<char>)>::empty());
        }
        r
    }

    /// A builder whose only parameter is the destination `name`.
    pub fn for_dest(name: &str) -> (r: RfcConnectionBuilder)
        ensures
            r@ == Map::<Seq<char>, Seq<char>>::empty().insert("dest"@, name@),
            r.entries() == seq![("dest"@, name@)],
    {
        RfcConnectionBuilder::new().set_text("dest", name.to_owned())
    }

    /// Set the parameter `key` to the text of `value`. An existing entry
    /// with that key keeps its place and takes the new value.
    pub fn set_param<T: core::fmt::Display>(self, key: &str, value: T) -> (r:
        RfcConnectionBuilder)
        ensures
            exists|s: String|
                #![trigger vstd::string::to_string_from_display_ensures::<T>(&value, s)]
                vstd::string::to_string_from_display_ensures::<T>(&value, s) && r@ == self@.insert(
                    key@,
                    s@,
                ) && r.entries() == Self::set_entry(self.entries(), key@, s@),
    {
        let text = value.to_string();
        let r = self.set_text(key, text);
        r
    }

    /// The entries after setting `k` to `v`: replaced in place where `k` is
    /// present, appended where it is not.
    pub open spec fn set_entry(e: Seq<(Seq<char>, Seq<char>)>, k: Seq<char>, v: Seq<char>) -> Seq<
        (Seq<char>, Seq<char>),
    > {
        if exists|i: int| 0 <= i < e.len() && (#[trigger] e[i]).0 == k {
            e.update(choose|i: int| 0 <= i < e.len() && (#[trigger] e[i]).0 == k, (k, v))
        } else {
            e.push((k, v))
        }
    }

    /// Set the parameter `key` to the text `value`.
    fn set_text(self, key: &str, value: String) -> (r: RfcConnectionBuilder)
        ensures
            r@ == self@.insert(key@, value@),
            r.entries() == Self::set_entry(self.entries(), key@, value@),
    {
        proof {
            use_type_invariant(&self);
        }
        let ghost e = self.entries();
        let mut params = self.params;
        let key_text = key.to_owned();
        let mut i: usize = 0;
        while i < params.len()
            invariant
                0 <= i <= params@.len(),
                params@.map_values(|p: (String, String)| (p.0@, p.1@)) == e,
                key_text@ == key@,
                e == self.entries(),
                keys_unique(e),
                forall|j: int| 0 <= j < i ==> (#[trigger] e[j]).0 != key@,
            decreases params@.len() - i,
        {
            if params[i].0 == key_text {
                params.set(i, (key_text, value));
                proof {
                    assert(e[i as int].0 == key@);
                    assert(params@.map_values(|p: (String, String)| (p.0@, p.1@)) =~= e.update(i as int, (key@, value@)));
                    let f = e.update(i as int, (key@, value@));
                    assert forall|a: int, b: int| 0 <= a < b < f.len() implies (#[trigger] f[a]).0 != (#[trigger] f[b]).0 by {
                        assert(f[a].0 == e[a].0);
                        assert(f[b].0 == e[b].0);
                    }
                }
                let r = RfcConnectionBuilder { params };
                proof {
                    assert(r.entries() =~= e.update(i as int, (key@, value@)));
                    assert(0 <= i < e.len() && e[i as int].0 == key@);
                    lemma_entries_map_update(e, i as int, key@, value@);
                    assert(exists|j: int| 0 <= j < e.len() && (#[trigger] e[j]).0 == key@);
                    let c = choose|j: int| 0 <= j < e.len() && (#[trigger] e[j]).0 == key@;
                    if c != i {
                        if c < i {
                            assert(e[c].0 != key@);
                        } else {
                            assert(e[i as int].0 != e[c].0);
                        }
                    }
                    assert(c == i);
                    assert(Self::set_entry(e, key@, value@) == e.update(i as int, (key@, value@)));
                    assert(r@ == entries_map(e).insert(key@, value@));
                }
                return r;
            }
            i = i + 1;
        }
        params.push((key_text, value));
        proof {
            let f = e.push((key@, value@));
            assert(params@.map_values(|p: (String, String)| (p.0@, p.1@)) =~= f);
            assert forall|a: int, b: int| 0 <= a < b < f.len() implies (#[trigger] f[a]).0 != (#[trigger] f[b]).0 by {
                if b == e.len() {
                    assert(f[a] == e[a]);
                } else {
                    assert(f[a] == e[a]);
                    assert(f[b] == e[b]);
                }
            }
        }
        let r = RfcConnectionBuilder { params };
        proof {
            assert(r.entries() =~= e.push((key@, value@)));
            assert(r.entries().drop_last() =~= e);
        }
        r
    }

    /// A copy with the same entries.
    pub fn clone(&self) -> (r: RfcConnectionBuilder)
        ensures
            r.entries() == self.entries(),
            r@ == self@,
    {
        proof {
            use_type_invariant(self);
        }
        let mut params: Vec<(String, String)> = Vec::new();
        let mut i: usize = 0;
        while i < self.params.len()
            invariant
                0 <= i <= self.params@.len(),
                params@.len() == i,
                forall|j: int|
                    0 <= j < i ==> (#[trigger] params@[j]).0@ == self.params@[j].0@ && params@[j].1@
                        == self.params@[j].1@,
            decreases self.params@.len() - i,
        {
            params.push((self.params[i].0.clone(), self.params[i].1.clone()));
            i = i + 1;
        }
        proof {
            assert(params@.map_values(|p: (String, String)| (p.0@, p.1@)) =~= self.entries());
        }
        RfcConnectionBuilder { params }
    }

    /// The parameters encoded as wide-character pairs, in entry order, as
    /// the runtime takes them for opening a connection.
    pub fn encoded_params(&self) -> (r: Vec<(Vec<u16>, Vec<u16>)>)
        ensures
            r@.len() == self.entries().len(),
            forall|i: int|
                0 <= i < r@.len() ==> (#[trigger] r@[i]).0@ == sap_uc_of(self.entries()[i].0)
                    && r@[i].1@ == sap_uc_of(self.entries()[i].1),
    {
        let mut r: Vec<(Vec<u16>, Vec<u16>)> = Vec::new();
        let mut i: usize = 0;
        while i < self.params.len()
            invariant
                0 <= i <= self.params@.len(),
                r@.len() == i,
                forall|j: int|
                    0 <= j < i ==> (#[trigger] r@[j]).0@ == sap_uc_of(self.entries()[j].0)
                        && r@[j].1@ == sap_uc_of(self.entries()[j].1),
            decreases self.params@.len() - i,
        {
            let k = from_str(self.params[i].0.as_str());
            let v = from_str(self.params[i].1.as_str());
            r.push((k, v));
            i = i + 1;
        }
        r
    }
}

/// An open connection. It owns its native handle; zero stands for a
/// connection that has been closed.
#[derive(Debug)]
pub struct RfcConnection {
    handle: HandleSlot,
}

impl View for RfcConnection {
    type V = usize;

    closed spec fn view(&self) -> usize {
        self.handle@
    }
}

impl RfcConnection {
    /// A builder with no parameters, to open a connection with.
    pub fn builder() -> (r: RfcConnectionBuilder)
        ensures
            r@ == Map::<Seq<char>, Seq<char>>::empty(),
    {
        RfcConnectionBuilder::new()
    }

    /// The connection that the runtime's open call returned: an error, the
    /// record that the call filled in, where the handle is null.
    pub fn from_open(handle: usize, err: RfcErrorInfo) -> (r: Result<RfcConnection, RfcErrorInfo>)
        ensures
            handle != 0 ==> (r matches Ok(c) && c@ == handle),
            handle == 0 ==> r == Err::<RfcConnection, RfcErrorInfo>(err),
    {
        match check_handle(handle, err) {
            Ok(h) => Ok(RfcConnection { handle: HandleSlot::new(h) }),
            Err(e) => Err(e),
        }
    }

    /// The native handle; zero once the connection is closed.
    pub fn handle(&self) -> (r: usize)
        ensures
            r == self@,
    {
        self.handle.get()
    }

    pub fn is_open(&self) -> (r: bool)
        ensures
            r <==> self@ != 0,
    {
        !self.handle.is_null()
    }

    /// Take the handle for closing. The first call hands it out and leaves
    /// the connection closed; every later call gives `None`.
    pub fn release(&mut self) -> (r: Option<usize>)
        ensures
            (r, final(self)@) == take_spec(old(self)@),
    {
        self.handle.take()
    }

    /// What to report after the close call returned `rc`: a warning where
    /// it failed, nothing where it succeeded. A failed close is never an
    /// error to the caller.
    pub fn close_report(rc: RfcRc, err: RfcErrorInfo) -> (r: Option<Warning>)
        ensures
            r == close_report_spec(rc, err),
    {
        if rc == RfcRc::RfcOk {
            None
        } else {
            Some(Warning::ConnectionCloseFailed(err))
        }
    }
}

pub open spec fn close_report_spec(rc: RfcRc, err: RfcErrorInfo) -> Option<Warning> {
    if rc == RfcRc::RfcOk {
        None
    } else {
        Some(Warning::ConnectionCloseFailed(err))
    }
}

/// Releasing a connection twice closes it once: the second release finds the
/// null sentinel and hands out nothing.
pub proof fn lemma_connection_release_twice(handle: usize)
    ensures
        take_spec(take_spec(handle).1).0 is None,
        handle != 0 ==> take_spec(handle).0 == Some(handle),
{
}

} // verus!
