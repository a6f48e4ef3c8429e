use vstd::prelude::*;
use crate::local::LocalFile;
use crate::remote::RemoteFile;
use crate::strutil::str_eq;

verus! {

/// The first local entry whose key is `key`, searching front to back.
pub open spec fn lookup_local(ls: Seq<LocalFile>, key: Seq<char>) -> Option<LocalFile>
    decreases ls.len(),
{
    if ls.len() == 0 {
        None
    } else if ls[0].key@ == key {
        Some(ls[0])
    } else {
        lookup_local(ls.drop_first(), key)
    }
}

/// The first remote entry whose key is `key`, searching front to back.
pub open spec fn lookup_remote(rs: Seq<RemoteFile>, key: Seq<char>) -> Option<RemoteFile>
    decreases rs.len(),
{
    if rs.len() == 0 {
        None
    } else if rs[0].key@ == key {
        Some(rs[0])
    } else {
        lookup_remote(rs.drop_first(), key)
    }
}

pub open spec fn has_local_key(ls: Seq<LocalFile>, key: Seq<char>) -> bool {
    exists|i: int| 0 <= i < ls.len() && ls[i].key@ == key
}

pub open spec fn has_remote_key(rs: Seq<RemoteFile>, key: Seq<char>) -> bool {
    exists|i: int| 0 <= i < rs.len() && rs[i].key@ == key
}

pub open spec fn unique_local_keys(ls: Seq<LocalFile>) -> bool {
    forall|i: int, j: int| 0 <= i < j < ls.len() ==> ls[i].key@ != ls[j].key@
}

pub open spec fn unique_remote_keys(rs: Seq<RemoteFile>) -> bool {
    forall|i: int, j: int| 0 <= i < j < rs.len() ==> rs[i].key@ != rs[j].key@
}

pub proof fn lemma_lookup_local_match(ls: Seq<LocalFile>, key: Seq<char>, i: int)
    requires
        0 <= i < ls.len(),
        ls[i].key@ == key,
        forall|j: int| 0 <= j < i ==> ls[j].key@ != key,
    ensures
        lookup_local(ls, key) == Some(ls[i]),
    decreases i,
{
    if i > 0 {
        lemma_lookup_local_match(ls.drop_first(), key, i - 1);
    }
}

pub proof fn lemma_lookup_local_none(ls: Seq<LocalFile>, key: Seq<char>)
    requires
        forall|j: int| 0 <= j < ls.len() ==> ls[j].key@ != key,
    ensures
        lookup_local(ls, key) is None,
    decreases ls.len(),
{
    if ls.len() > 0 {
        lemma_lookup_local_none(ls.drop_first(), key);
    }
}

pub proof fn lemma_lookup_remote_match(rs: Seq<RemoteFile>, key: Seq<char>, i: int)
    requires
        0 <= i < rs.len(),
        rs[i].key@ == key,
        forall|j: int| 0 <= j < i ==> rs[j].key@ != key,
    ensures
        lookup_remote(rs, key) == Some(rs[i]),
    decreases i,
{
    if i > 0 {
        lemma_lookup_remote_match(rs.drop_first(), key, i - 1);
    }
}

pub proof fn lemma_lookup_remote_none(rs: Seq<RemoteFile>, key: Seq<char>)
    requires
        forall|j: int| 0 <= j < rs.len() ==> rs[j].key@ != key,
    ensures
        lookup_remote(rs, key) is None,
    decreases rs.len(),
{
    if rs.len() > 0 {
        lemma_lookup_remote_none(rs.drop_first(), key);
    }
}

/// A found local entry is an element of the sequence bearing the key, and a
/// lookup succeeds exactly when some entry bears the key.
pub proof fn lemma_lookup_local_has(ls: Seq<LocalFile>, key: Seq<char>)
    ensures
        lookup_local(ls, key) is Some <==> has_local_key(ls, key),
        match lookup_local(ls, key) {
            Some(f) => f.key@ == key && exists|i: int| 0 <= i < ls.len() && ls[i] == f,
            None => !has_local_key(ls, key),
        },
    decreases ls.len(),
{
    if ls.len() > 0 {
        lemma_lookup_local_has(ls.drop_first(), key);
        if ls[0].key@ != key {
            if has_local_key(ls, key) {
                let i = choose|i: int| 0 <= i < ls.len() && ls[i].key@ == key;
                assert(ls.drop_first()[i - 1].key@ == key);
                assert(has_local_key(ls.drop_first(), key));
            }
            if has_local_key(ls.drop_first(), key) {
                let i = choose|i: int| 0 <= i < ls.drop_first().len() && ls.drop_first()[i].key@
                    == key;
                assert(ls[i + 1].key@ == key);
            }
            if lookup_local(ls, key) is Some {
                let f = lookup_local(ls, key).unwrap();
                let i = choose|i: int|
                    0 <= i < ls.drop_first().len() && ls.drop_first()[i] == f;
                assert(ls[i + 1] == f);
            }
        }
    }
}

/// A found remote entry is an element of the sequence bearing the key, and a
/// lookup succeeds exactly when some entry bears the key.
pub proof fn lemma_lookup_remote_has(rs: Seq<RemoteFile>, key: Seq<char>)
    ensures
        lookup_remote(rs, key) is Some <==> has_remote_key(rs, key),
        match lookup_remote(rs, key) {
            Some(f) => f.key@ == key && exists|i: int| 0 <= i < rs.len() && rs[i] == f,
            None => !has_remote_key(rs, key),
        },
    decreases rs.len(),
{
    if rs.len() > 0 {
        lemma_lookup_remote_has(rs.drop_first(), key);
        if rs[0].key@ != key {
            if has_remote_key(rs, key) {
                let i = choose|i: int| 0 <= i < rs.len() && rs[i].key@ == key;
                assert(rs.drop_first()[i - 1].key@ == key);
                assert(has_remote_key(rs.drop_first(), key));
            }
            if has_remote_key(rs.drop_first(), key) {
                let i = choose|i: int| 0 <= i < rs.drop_first().len() && rs.drop_first()[i].key@
                    == key;
                assert(rs[i + 1].key@ == key);
            }
            if lookup_remote(rs, key) is Some {
                let f = lookup_remote(rs, key).unwrap();
                let i = choose|i: int|
                    0 <= i < rs.drop_first().len() && rs.drop_first()[i] == f;
                assert(rs[i + 1] == f);
            }
        }
    }
}

/// The local inventory: every regular file under the sync root, in the order
/// the scan delivered them, with no key occurring twice.
pub struct LocalInventory {
    pub entries: Vec<LocalFile>,
}

impl View for LocalInventory {
    type V = Seq<LocalFile>;

    open spec fn view(&self) -> Seq<LocalFile> {
        self.entries@
    }
}

impl LocalInventory {
    pub open spec fn wf(&self) -> bool {
        unique_local_keys(self.entries@)
    }

    /// Builds the inventory, accepting the entries only when their keys are
    /// pairwise distinct.
    pub fn from_entries(entries: Vec<LocalFile>) -> (r: Option<LocalInventory>)
        ensures
            match r {
                Some(inv) => inv@ == entries@ && inv.wf(),
                None => !unique_local_keys(entries@),
            },
    {
        let n = entries.len();
        let mut i: usize = 0;
        while i < n
            invariant
                i <= n,
                n == entries@.len(),
                forall|p: int, q: int| 0 <= p < q < i ==> entries@[p].key@ != entries@[q].key@,
            decreases n - i,
        {
            let mut j: usize = 0;
            while j < i
                invariant
                    j <= i < n,
                    n == entries@.len(),
                    forall|q: int| 0 <= q < j ==> entries@[q].key@ != entries@[i as int].key@,
                decreases i - j,
            {
                if str_eq(entries[j].key.as_str(), entries[i].key.as_str()) {
                    return None;
                }
                j += 1;
            }
            i += 1;
        }
        Some(LocalInventory { entries })
    }

    /// Looks a key up, returning the entry that bears it, if any.
    pub fn get<'a>(&'a self, key: &str) -> (r: Option<&'a LocalFile>)
        ensures
            match r {
                Some(f) => lookup_local(self@, key@) == Some(*f),
                None => lookup_local(self@, key@) is None,
            },
    {
        let n = self.entries.len();
        let mut i: usize = 0;
        while i < n
            invariant
                i <= n,
                n == self.entries@.len(),
                forall|j: int| 0 <= j < i ==> self.entries@[j].key@ != key@,
            decreases n - i,
        {
            if str_eq(self.entries[i].key.as_str(), key) {
                proof {
                    lemma_lookup_local_match(self@, key@, i as int);
                }
                return Some(&self.entries[i]);
            }
            i += 1;
        }
        proof {
            lemma_lookup_local_none(self@, key@);
        }
        None
    }

    /// True when some entry bears the key.
    pub fn contains_key(&self, key: &str) -> (r: bool)
        ensures
            r == has_local_key(self@, key@),
    {
        proof {
            lemma_lookup_local_has(self@, key@);
        }
        match self.get(key) {
            Some(_) => true,
            None => false,
        }
    }
}

/// The remote inventory: every object the paginated listing reported, in
/// listing order, with no key occurring twice.
pub struct RemoteInventory {
    pub entries: Vec<RemoteFile>,
}

impl View for RemoteInventory {
    type V = Seq<RemoteFile>;

    open spec fn view(&self) -> Seq<RemoteFile> {
        self.entries@
    }
}

impl RemoteInventory {
    pub open spec fn wf(&self) -> bool {
        unique_remote_keys(self.entries@)
    }

    /// Builds the inventory, accepting the entries only when their keys are
    /// pairwise distinct.
    pub fn from_entries(entries: Vec<RemoteFile>) -> (r: Option<RemoteInventory>)
        ensures
            match r {
                Some(inv) => inv@ == entries@ && inv.wf(),
                None => !unique_remote_keys(entries@),
            },
    {
        let n = entries.len();
        let mut i: usize = 0;
        while i < n
            invariant
                i <= n,
                n == entries@.len(),
                forall|p: int, q: int| 0 <= p < q < i ==> entries@[p].key@ != entries@[q].key@,
            decreases n - i,
        {
            let mut j: usize = 0;
            while j < i
                invariant
                    j <= i < n,
                    n == entries@.len(),
                    forall|q: int| 0 <= q < j ==> entries@[q].key@ != entries@[i as int].key@,
                decreases i - j,
            {
                if str_eq(entries[j].key.as_str(), entries[i].key.as_str()) {
                    return None;
                }
                j += 1;
            }
            i += 1;
        }
        Some(RemoteInventory { entries })
    }

    /// Looks a key up, returning the entry that bears it, if any.
    pub fn get<'a>(&'a self, key: &str) -> (r: Option<&'a RemoteFile>)
        ensures
            match r {
                Some(f) => lookup_remote(self@, key@) == Some(*f),
                None => lookup_remote(self@, key@) is None,
            },
    {
        let n = self.entries.len();
        let mut i: usize = 0;
        while i < n
            invariant
                i <= n,
                n == self.entries@.len(),
                forall|j: int| 0 <= j < i ==> self.entries@[j].key@ != key@,
            decreases n - i,
        {
            if str_eq(self.entries[i].key.as_str(), key) {
                proof {
                    lemma_lookup_remote_match(self@, key@, i as int);
                }
                return Some(&self.entries[i]);
            }
            i += 1;
        }
        proof {
            lemma_lookup_remote_none(self@, key@);
        }
        None
    }

    /// True when some entry bears the key.
    pub fn contains_key(&self, key: &str) -> (r: bool)
        ensures
            r == has_remote_key(self@, key@),
    {
        proof {
            lemma_lookup_remote_has(self@, key@);
        }
        match self.get(key) {
            Some(_) => true,
            None => false,
        }
    }
}

} // verus!
