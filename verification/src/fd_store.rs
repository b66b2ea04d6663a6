//! Send and receive FDs to/from systemd's file descriptor store.
//! <https://systemd.io/FILE_DESCRIPTOR_STORE/>
//!
//! This requires that the service is started with the `FileDescriptorStoreMax` attribute
//! in the unit configuration file to be non-zero.
//!
//! The systemd API is asynchronous, and does not have a general way
//! to known if an FD was successfully stored or not. This should
//! only be used as a best effort API, and a fallback should always
//! be ready in case of a failure. One example is if the service
//! is started without an FD store.
//!
//! The functions here say what to send; sending it is left to the caller.
use vstd::prelude::*;

use crate::names::string_views;
use crate::notify::{fd_name, fd_store, fd_store_remove};

verus! {

/// Struct holding the data needed to store the
/// FD.
pub struct StoreFd<'store, F> {
    fd: F,
    name: &'store str,
}

impl<'store, F> View for StoreFd<'store, F> {
    /// The descriptor and the name it is stored under.
    type V = (F, Seq<char>);

    closed spec fn view(&self) -> (F, Seq<char>) {
        (self.fd, self.name@)
    }
}

impl<'store, F> StoreFd<'store, F> {
    pub fn new(fd: F, name: &'store str) -> (r: Self)
        ensures
            r@ == (fd, name@),
    {
        StoreFd { fd, name }
    }

    /// The descriptor and the name.
    pub fn into_parts(self) -> (r: (F, &'store str))
        ensures
            r.0 == self@.0,
            r.1@ == self@.1,
    {
        (self.fd, self.name)
    }
}

/// The messages that store descriptors under `name`.
pub open spec fn store_messages(name: Seq<char>) -> Seq<Seq<char>> {
    seq!["FDSTORE=1"@, "FDNAME="@ + name]
}

/// The messages that remove the descriptors stored under `name`.
pub open spec fn remove_messages(name: Seq<char>) -> Seq<Seq<char>> {
    seq!["FDNAME="@ + name, "FDSTOREREMOVE=1"@]
}

/// Law: removing by a name addresses the entry that storing under that
/// name created, and no entry stored under another name.
pub proof fn lemma_remove_addresses_stored_entry(name: Seq<char>, other: Seq<char>)
    ensures
        remove_messages(name)[0] == store_messages(name)[1],
        other != name ==> remove_messages(name)[0] != store_messages(other)[1],
{
    if other != name {
        let p = "FDNAME="@;
        if remove_messages(name)[0] == store_messages(other)[1] {
            assert((p + name).len() == (p + other).len());
            assert(name =~= (p + name).subrange(p.len() as int, (p + name).len() as int));
            assert(other =~= (p + other).subrange(p.len() as int, (p + other).len() as int));
        }
    }
}

/// The assignment `key=value` that a key/value pair stands for.
pub open spec fn assignment(pair: (Seq<char>, Seq<char>)) -> Seq<char> {
    pair.0 + "="@ + pair.1
}

/// The views of a list of key/value pairs.
pub open spec fn pair_views(v: Seq<(String, String)>) -> Seq<(Seq<char>, Seq<char>)> {
    v.map_values(|p: (String, String)| (p.0@, p.1@))
}

/// The key/value pairs that store descriptors under `name` through
/// libsystemd's notification call.
pub open spec fn store_states_spec(name: Seq<char>) -> Seq<(Seq<char>, Seq<char>)> {
    seq![("FDSTORE"@, "1"@), ("FDNAME"@, name)]
}

/// The key/value pairs that remove the descriptors stored under `name`
/// through libsystemd's notification call.
pub open spec fn remove_states_spec(name: Seq<char>) -> Seq<(Seq<char>, Seq<char>)> {
    seq![("FDSTOREREMOVE"@, "1"@), ("FDNAME"@, name)]
}

/// A key/value pair of owned texts.
fn state_pair(key: &str, value: &str) -> (r: (String, String))
    ensures
        r.0@ == key@,
        r.1@ == value@,
{
    (String::from_str(key), String::from_str(value))
}

/// The key/value pairs to hand to libsystemd to store descriptors under
/// `name`.
pub fn store_fd_states(name: &str) -> (r: Vec<(String, String)>)
    ensures
        pair_views(r@) == store_states_spec(name@),
{
    let mut states: Vec<(String, String)> = Vec::new();
    states.push(state_pair("FDSTORE", "1"));
    states.push(state_pair("FDNAME", name));
    assert(pair_views(states@) =~= store_states_spec(name@));
    states
}

/// The key/value pairs to hand to libsystemd to remove the descriptors
/// stored under `name`.
pub fn remove_fd_states(name: &str) -> (r: Vec<(String, String)>)
    ensures
        pair_views(r@) == remove_states_spec(name@),
{
    let mut states: Vec<(String, String)> = Vec::new();
    states.push(state_pair("FDSTOREREMOVE", "1"));
    states.push(state_pair("FDNAME", name));
    assert(pair_views(states@) =~= remove_states_spec(name@));
    states
}

/// Law: storing or removing through libsystemd sends the same assignments
/// as through the notification socket. Storing sends them in the same
/// order; removing sends the same two assignments in the other order.
pub proof fn lemma_store_paths_agree(name: Seq<char>)
    ensures
        store_states_spec(name).map_values(|p: (Seq<char>, Seq<char>)| assignment(p))
            == store_messages(name),
        remove_states_spec(name).map_values(|p: (Seq<char>, Seq<char>)| assignment(p)) == seq![
            remove_messages(name)[1],
            remove_messages(name)[0],
        ],
        remove_states_spec(name).map_values(|p: (Seq<char>, Seq<char>)| assignment(p)).to_multiset()
            == remove_messages(name).to_multiset(),
{
    reveal_strlit("=");
    reveal_strlit("1");
    reveal_strlit("FDSTORE");
    reveal_strlit("FDSTORE=1");
    reveal_strlit("FDNAME");
    reveal_strlit("FDNAME=");
    reveal_strlit("FDSTOREREMOVE");
    reveal_strlit("FDSTOREREMOVE=1");
    let store = store_states_spec(name).map_values(|p: (Seq<char>, Seq<char>)| assignment(p));
    let remove = remove_states_spec(name).map_values(|p: (Seq<char>, Seq<char>)| assignment(p));
    assert("FDSTORE"@ + "="@ + "1"@ =~= "FDSTORE=1"@);
    assert("FDNAME"@ + "="@ + name =~= "FDNAME="@ + name);
    assert("FDSTOREREMOVE"@ + "="@ + "1"@ =~= "FDSTOREREMOVE=1"@);
    assert(store =~= store_messages(name));
    let swapped = seq![remove_messages(name)[1], remove_messages(name)[0]];
    assert(remove =~= swapped);
    let m = remove_messages(name);
    assert(m =~= seq![m[0]].push(m[1]));
    assert(swapped =~= seq![m[1]].push(m[0]));
    broadcast use vstd::seq_lib::group_seq_properties;
    broadcast use vstd::multiset::group_multiset_axioms;
    assert(seq![m[0]] =~= Seq::<Seq<char>>::empty().push(m[0]));
    assert(seq![m[1]] =~= Seq::<Seq<char>>::empty().push(m[1]));
    assert(swapped.to_multiset() =~= m.to_multiset());
}

/// Stores an FD in systemd's FD store.
///
/// This API requires a name, because it is much more useful that way.
///
/// Gives the messages to send to the notification socket, and the
/// descriptor to send with them.
pub fn store_fd_socket<'store, F>(store: StoreFd<'store, F>) -> (r: (Vec<String>, F))
    ensures
        string_views(r.0@) == store_messages(store@.1),
        r.1 == store@.0,
{
    let mut lines: Vec<String> = Vec::new();
    lines.push(String::from_str(fd_store()));
    lines.push(fd_name(store.name));
    assert(string_views(lines@) =~= seq!["FDSTORE=1"@, "FDNAME="@ + store@.1]);
    (lines, store.fd)
}

/// Removes an FD from systemd's FD store.
///
/// The FD is not required, just provide the name.
///
/// Gives the messages to send to the notification socket.
pub fn socket_remove_fd(name: &str) -> (r: Vec<String>)
    ensures
        string_views(r@) == remove_messages(name@),
{
    let mut lines: Vec<String> = Vec::new();
    lines.push(fd_name(name));
    lines.push(String::from_str(fd_store_remove()));
    assert(string_views(lines@) =~= seq!["FDNAME="@ + name@, "FDSTOREREMOVE=1"@]);
    lines
}

} // verus!
