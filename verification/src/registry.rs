//! Native argument buffers for the host's extension interface.
//!
//! Every string the host may later read by raw pointer (surface names,
//! titles, item labels, action strings, command names and signatures) is
//! owned by this registry. A buffer is created at most once and then kept
//! for the remaining life of the process: repeated lookups during repeated
//! refresh callbacks must return the same slot with the same content, never
//! reinitialize or move it. A slot index here stands for the stable native
//! address the unverified layer hands to the host.

use vstd::prelude::*;

use crate::errors::ExtensionError;

verus! {

/// Logical name of one process-lifetime native string buffer.
#[derive(PartialEq, Eq, Structural, Clone, Copy, Debug)]
pub enum BufferKey {
    MenuName,
    MenuTitle,
    ItemHelloLabel,
    ItemHelloAction,
    ItemCloseLabel,
    ItemCloseAction,
    SayMenuName,
    SayMenuTitle,
    SayCloseAction,
    CommandMenuName,
    CommandMenuSignature,
    CommandSayName,
    CommandSaySignature,
}

/// The fixed content that belongs to each buffer key.
pub open spec fn spec_key_content(k: BufferKey) -> Seq<char> {
    match k {
        BufferKey::MenuName => "rustycube"@,
        BufferKey::MenuTitle => "Rusty Cube"@,
        BufferKey::ItemHelloLabel => "Hello"@,
        BufferKey::ItemHelloAction => "rustysay hello"@,
        BufferKey::ItemCloseLabel => "Close"@,
        BufferKey::ItemCloseAction => "closecurmenu"@,
        BufferKey::SayMenuName => "rustysay"@,
        BufferKey::SayMenuTitle => "RustySay"@,
        BufferKey::SayCloseAction => "closecurmenu"@,
        BufferKey::CommandMenuName => "rustycube"@,
        BufferKey::CommandMenuSignature => ""@,
        BufferKey::CommandSayName => "rustysay"@,
        BufferKey::CommandSaySignature => "s"@,
    }
}

/// The fixed content that belongs to each buffer key.
pub fn key_content(k: BufferKey) -> (r: &'static str)
    ensures
        r@ == spec_key_content(k),
{
    match k {
        BufferKey::MenuName => "rustycube",
        BufferKey::MenuTitle => "Rusty Cube",
        BufferKey::ItemHelloLabel => "Hello",
        BufferKey::ItemHelloAction => "rustysay hello",
        BufferKey::ItemCloseLabel => "Close",
        BufferKey::ItemCloseAction => "closecurmenu",
        BufferKey::SayMenuName => "rustysay",
        BufferKey::SayMenuTitle => "RustySay",
        BufferKey::SayCloseAction => "closecurmenu",
        BufferKey::CommandMenuName => "rustycube",
        BufferKey::CommandMenuSignature => "",
        BufferKey::CommandSayName => "rustysay",
        BufferKey::CommandSaySignature => "s",
    }
}

/// One initialized native buffer: its key and its owned text.
pub struct BufferEntry {
    pub key: BufferKey,
    pub text: String,
}

/// The set of initialized buffers, in creation order. Entries are only
/// ever appended; an existing slot never changes, so its index (standing
/// for its native address) stays valid forever.
pub struct BufferRegistry {
    pub entries: Vec<BufferEntry>,
}

/// Abstract registry state: each slot's key and content, in slot order.
pub open spec fn model_has_key(m: Seq<(BufferKey, Seq<char>)>, k: BufferKey) -> bool {
    exists|i: int| 0 <= i < m.len() && m[i].0 == k
}

pub open spec fn model_index_of(m: Seq<(BufferKey, Seq<char>)>, k: BufferKey) -> int {
    choose|i: int| 0 <= i < m.len() && m[i].0 == k
}

/// No two slots share a key.
pub open spec fn model_keys_unique(m: Seq<(BufferKey, Seq<char>)>) -> bool {
    forall|i: int, j: int|
        #![trigger m[i].0, m[j].0]
        0 <= i < m.len() && 0 <= j < m.len() && m[i].0 == m[j].0 ==> i == j
}

/// Validity of the abstract registry: keys are unique and every slot holds
/// its key's fixed content.
pub open spec fn model_wf(m: Seq<(BufferKey, Seq<char>)>) -> bool {
    &&& model_keys_unique(m)
    &&& forall|i: int| 0 <= i < m.len() ==> (#[trigger] m[i]).1 == spec_key_content(m[i].0)
}

/// What a get-or-create access does to the abstract registry: an existing
/// key is answered from its slot with nothing changed; a new key appends
/// one slot holding that key's fixed content.
pub open spec fn model_get_or_create(
    m: Seq<(BufferKey, Seq<char>)>,
    k: BufferKey,
) -> (Seq<(BufferKey, Seq<char>)>, int) {
    if model_has_key(m, k) {
        (m, model_index_of(m, k))
    } else {
        (m.push((k, spec_key_content(k))), m.len() as int)
    }
}

impl BufferRegistry {
    /// Abstract value: each slot's key and content, in slot order.
    pub open spec fn model(self) -> Seq<(BufferKey, Seq<char>)> {
        self.entries@.map_values(|e: BufferEntry| (e.key, e.text@))
    }

    /// Validity: keys are unique and every slot holds its key's content.
    pub open spec fn wf(self) -> bool {
        model_wf(self.model())
    }

    /// An empty registry: no buffer initialized yet.
    pub fn new() -> (r: BufferRegistry)
        ensures
            r.model() == Seq::<(BufferKey, Seq<char>)>::empty(),
            r.wf(),
    {
        let r = BufferRegistry { entries: Vec::new() };
        proof {
            assert(r.model() =~= Seq::<(BufferKey, Seq<char>)>::empty());
        }
        r
    }

    /// Slot of key `k`, if that buffer was already initialized.
    pub fn find_key(&self, k: BufferKey) -> (r: Option<usize>)
        ensures
            match r {
                Some(i) => 0 <= i < self.model().len() && self.model()[i as int].0 == k,
                None => !model_has_key(self.model(), k),
            },
    {
        let n = self.entries.len();
        let mut i: usize = 0;
        while i < n
            invariant
                n == self.entries.len(),
                0 <= i <= n,
                forall|j: int| 0 <= j < i ==> self.model()[j].0 != k,
            decreases n - i,
        {
            if self.entries[i].key == k {
                return Some(i);
            }
            i = i + 1;
        }
        None
    }

    /// The get-or-create access: return the slot for `k`, initializing it
    /// with `k`'s fixed content only if this is the first access.
    pub fn get_or_create(&mut self, k: BufferKey) -> (idx: usize)
        requires
            old(self).wf(),
            old(self).model().len() < usize::MAX,
        ensures
            final(self).wf(),
            (final(self).model(), idx as int) == model_get_or_create(old(self).model(), k),
            0 <= idx < final(self).model().len(),
            final(self).model()[idx as int] == (k, spec_key_content(k)),
    {
        let found = self.find_key(k);
        match found {
            Some(i) => {
                proof {
                    assert(model_has_key(self.model(), k));
                    let j = model_index_of(self.model(), k);
                    assert(self.model()[j].0 == k && self.model()[i as int].0 == k);
                    assert(j == i as int);
                }
                i
            },
            None => {
                let i = self.entries.len();
                let text = key_content(k).to_owned();
                self.entries.push(BufferEntry { key: k, text });
                proof {
                    assert(self.model() =~= old(self).model().push((k, spec_key_content(k))));
                    assert(!model_has_key(old(self).model(), k));
                }
                i
            },
        }
    }

    /// One-shot initialization: like get-or-create, except that finding the
    /// buffer already initialized is a logic error and is reported as
    /// `BufferReinitConflict`, with nothing changed.
    pub fn set_once(&mut self, k: BufferKey) -> (r: Result<usize, ExtensionError>)
        requires
            old(self).wf(),
            old(self).model().len() < usize::MAX,
        ensures
            final(self).wf(),
            match r {
                Ok(idx) => !model_has_key(old(self).model(), k) && final(self).model()
                    == old(self).model().push((k, spec_key_content(k))) && idx as int == old(
                    self,
                ).model().len(),
                Err(e) => e == ExtensionError::BufferReinitConflict && model_has_key(
                    old(self).model(),
                    k,
                ) && final(self).model() == old(self).model(),
            },
    {
        let found = self.find_key(k);
        match found {
            Some(_) => Err(ExtensionError::BufferReinitConflict),
            None => {
                let i = self.entries.len();
                let text = key_content(k).to_owned();
                self.entries.push(BufferEntry { key: k, text });
                proof {
                    assert(self.model() =~= old(self).model().push((k, spec_key_content(k))));
                }
                Ok(i)
            },
        }
    }
}

/// The abstract registry and slot after `n` sequential get-or-create
/// accesses with the same key.
pub open spec fn model_get_or_create_n(
    m: Seq<(BufferKey, Seq<char>)>,
    k: BufferKey,
    n: nat,
) -> (Seq<(BufferKey, Seq<char>)>, int)
    decreases n,
{
    if n <= 1 {
        model_get_or_create(m, k)
    } else {
        let prev = model_get_or_create_n(m, k, (n - 1) as nat);
        model_get_or_create(prev.0, k)
    }
}

/// N sequential get-or-create accesses with the same key return the same
/// slot with the same content as the first access alone, and no access
/// after the first changes the registry.
pub proof fn lemma_get_or_create_n_stable(m: Seq<(BufferKey, Seq<char>)>, k: BufferKey, n: nat)
    requires
        model_wf(m),
        n >= 1,
    ensures
        model_get_or_create_n(m, k, n) == model_get_or_create(m, k),
        model_get_or_create_n(m, k, n).0[model_get_or_create_n(m, k, n).1] == (
            k,
            spec_key_content(k),
        ),
    decreases n,
{
    lemma_get_or_create_idempotent(m, k);
    if n > 1 {
        lemma_get_or_create_n_stable(m, k, (n - 1) as nat);
    }
}

/// Get-or-create is idempotent: on a valid registry, once a key's buffer
/// exists, every further access with the same key returns the same slot and
/// the same content and leaves the registry unchanged — so any number of
/// sequential accesses after the first return one stable slot.
pub proof fn lemma_get_or_create_idempotent(m: Seq<(BufferKey, Seq<char>)>, k: BufferKey)
    requires
        model_wf(m),
    ensures
        ({
            let (m1, i1) = model_get_or_create(m, k);
            let (m2, i2) = model_get_or_create(m1, k);
            &&& m2 == m1
            &&& i2 == i1
            &&& m1[i1] == (k, spec_key_content(k))
        }),
{
    let (m1, i1) = model_get_or_create(m, k);
    if model_has_key(m, k) {
        assert(m1 == m && i1 == model_index_of(m, k));
        assert(0 <= i1 < m.len() && m[i1].0 == k);
        assert(m[i1].1 == spec_key_content(k));
    } else {
        assert(m1 == m.push((k, spec_key_content(k))));
        assert(m1[m.len() as int].0 == k);
        assert(model_has_key(m1, k));
        let j = model_index_of(m1, k);
        assert(0 <= j < m1.len() && m1[j].0 == k);
        assert(j == m.len() as int) by {
            if j < m.len() {
                assert(m1[j] == m[j]);
                assert(model_has_key(m, k));
            }
        }
    }
}

} // verus!
