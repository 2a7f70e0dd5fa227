//! A simulated host, standing in for the low-level hook installer.
//!
//! The redirect guarantee — every call to a hooked target executes the
//! replacement first, and calling through the trampoline behaves exactly
//! like the pre-hook target — is a property of the rewritten process
//! memory, which this crate cannot observe. It is therefore proved against
//! a test double: a miniature process whose callable addresses and their
//! behaviors are plain data, whose installer performs the same rewrite the
//! real one promises, and whose call semantics follow a hooked entry
//! through the replacement and the trampoline.

use vstd::prelude::*;
use vstd::pervasive::VecAdditionalExecFns;

use crate::errors::ExtensionError;
use crate::hook::{thunk_forward, FrameArgs, ForwardCall, HookBinding};

verus! {

/// What sits at one simulated address.
#[derive(PartialEq, Eq, Structural, Clone, Copy, Debug)]
pub enum SimCode {
    /// An ordinary function; `behavior` identifies what it computes.
    Native { behavior: u64 },
    /// A hooked entry: control reaches `replacement` first, whose only
    /// continuation is `trampoline`.
    Hooked { replacement: u64, trampoline: u64 },
}

/// One callable address of the simulated process.
#[derive(PartialEq, Eq, Structural, Clone, Copy, Debug)]
pub struct SimSlot {
    pub address: u64,
    pub code: SimCode,
}

/// The simulated process: its callable addresses and their code.
pub struct SimHost {
    pub slots: Vec<SimSlot>,
}

/// The result a native simulated function returns: a fixed, concrete
/// mixing of its identity with every argument field, so that bit-identical
/// results are a meaningful claim in the simulation.
pub open spec fn spec_native_result(behavior: u64, args: FrameArgs) -> u64 {
    behavior ^ (args.width as u64) ^ ((args.height as u64) << 8) ^ ((args.lod_bias_bits as u64)
        << 16) ^ ((args.fps_bits as u64) << 24) ^ ((args.elapsed as u64) << 32)
}

/// The code at `addr`, if `addr` is callable.
pub open spec fn model_code_at(m: Seq<(u64, SimCode)>, addr: u64) -> Option<SimCode> {
    if exists|i: int| 0 <= i < m.len() && m[i].0 == addr {
        Some(m[choose|i: int| 0 <= i < m.len() && m[i].0 == addr].1)
    } else {
        None
    }
}

/// Validity: no two slots share an address.
pub open spec fn model_addrs_unique(m: Seq<(u64, SimCode)>) -> bool {
    forall|i: int, j: int|
        #![trigger m[i].0, m[j].0]
        0 <= i < m.len() && 0 <= j < m.len() && m[i].0 == m[j].0 ==> i == j
}

/// What calling `addr` does: the addresses control passes through, in
/// order, and the returned value — or no value, when the call runs into an
/// address that is not callable.
pub open spec fn spec_invoke(m: Seq<(u64, SimCode)>, addr: u64, args: FrameArgs) -> (
    Seq<u64>,
    Option<u64>,
) {
    match model_code_at(m, addr) {
        None => (Seq::empty(), None),
        Some(SimCode::Native { behavior }) => (
            seq![addr],
            Some(spec_native_result(behavior, args)),
        ),
        Some(SimCode::Hooked { replacement, trampoline }) => match model_code_at(m, trampoline) {
            Some(SimCode::Native { behavior }) => (
                seq![addr, replacement, trampoline],
                Some(spec_native_result(behavior, args)),
            ),
            _ => (seq![addr, replacement], None),
        },
    }
}

impl SimHost {
    /// Abstract value: each slot's address and code, in slot order.
    pub open spec fn model(self) -> Seq<(u64, SimCode)> {
        self.slots@.map_values(|s: SimSlot| (s.address, s.code))
    }

    pub open spec fn wf(self) -> bool {
        model_addrs_unique(self.model())
    }

    /// An empty simulated process.
    pub fn new() -> (r: SimHost)
        ensures
            r.model() == Seq::<(u64, SimCode)>::empty(),
            r.wf(),
    {
        let r = SimHost { slots: Vec::new() };
        proof {
            assert(r.model() =~= Seq::<(u64, SimCode)>::empty());
        }
        r
    }

    /// Add a native function at a fresh address.
    pub fn add_native(&mut self, address: u64, behavior: u64)
        requires
            old(self).wf(),
            model_code_at(old(self).model(), address) is None,
            old(self).model().len() < usize::MAX,
        ensures
            final(self).wf(),
            final(self).model() == old(self).model().push(
                (address, SimCode::Native { behavior }),
            ),
            model_code_at(final(self).model(), address) == Some(SimCode::Native { behavior }),
            forall|a: u64| a != address ==> #[trigger] model_code_at(final(self).model(), a)
                == model_code_at(old(self).model(), a),
    {
        self.slots.push(SimSlot { address, code: SimCode::Native { behavior } });
        proof {
            let m0 = old(self).model();
            let m1 = self.model();
            assert(m1 =~= m0.push((address, SimCode::Native { behavior })));
            lemma_push_code_at(m0, address, SimCode::Native { behavior });
        }
    }

    /// Index of the slot at `addr`, if any.
    fn find_slot(&self, addr: u64) -> (r: Option<usize>)
        requires
            self.wf(),
        ensures
            match r {
                Some(i) => 0 <= i < self.model().len() && self.model()[i as int].0 == addr
                    && model_code_at(self.model(), addr) == Some(self.model()[i as int].1),
                None => model_code_at(self.model(), addr) is None,
            },
    {
        let n = self.slots.len();
        let mut i: usize = 0;
        while i < n
            invariant
                self.wf(),
                n == self.slots.len(),
                0 <= i <= n,
                forall|j: int| 0 <= j < i ==> self.model()[j].0 != addr,
            decreases n - i,
        {
            if self.slots[i].address == addr {
                proof {
                    let k = choose|k: int|
                        0 <= k < self.model().len() && self.model()[k].0 == addr;
                    assert(self.model()[i as int].0 == addr);
                    assert(k == i as int);
                }
                return Some(i);
            }
            i = i + 1;
        }
        None
    }

    /// The installer double: rewrite the target's entry to a redirect and
    /// preserve its original code behind the fresh trampoline address. A
    /// target that is absent or already hooked is refused, exactly as the
    /// real installer refuses a region it cannot rewrite.
    pub fn install_hook(&mut self, target: u64, replacement: u64, trampoline: u64) -> (r: Result<
        HookBinding,
        ExtensionError,
    >)
        requires
            old(self).wf(),
            model_code_at(old(self).model(), trampoline) is None,
            trampoline != target,
            old(self).model().len() < usize::MAX,
        ensures
            final(self).wf(),
            match r {
                Ok(binding) => {
                    &&& binding == (HookBinding { target, replacement, trampoline })
                    &&& model_code_at(old(self).model(), target) matches Some(
                        SimCode::Native { behavior },
                    ) && model_code_at(final(self).model(), trampoline) == Some(
                        SimCode::Native { behavior },
                    )
                    &&& model_code_at(final(self).model(), target) == Some(
                        SimCode::Hooked { replacement, trampoline },
                    )
                    &&& forall|a: u64| a != target && a != trampoline
                        ==> #[trigger] model_code_at(final(self).model(), a) == model_code_at(
                        old(self).model(),
                        a,
                    )
                },
                Err(e) => {
                    &&& e == ExtensionError::HookInstall
                    &&& !(model_code_at(old(self).model(), target) matches Some(
                        SimCode::Native { .. },
                    ))
                    &&& final(self).model() == old(self).model()
                },
            },
    {
        let found = self.find_slot(target);
        match found {
            Some(i) => {
                let code = self.slots[i].code;
                match code {
                    SimCode::Native { behavior } => {
                        let ghost m0 = self.model();
                        self.slots.set(
                            i,
                            SimSlot {
                                address: target,
                                code: SimCode::Hooked { replacement, trampoline },
                            },
                        );
                        let ghost m1 = self.model();
                        self.slots.push(
                            SimSlot { address: trampoline, code: SimCode::Native { behavior } },
                        );
                        proof {
                            let m2 = self.model();
                            assert(m1 =~= m0.update(
                                i as int,
                                (target, SimCode::Hooked { replacement, trampoline }),
                            ));
                            assert(m2 =~= m1.push(
                                (trampoline, SimCode::Native { behavior }),
                            ));
                            lemma_install_code_at(
                                m0,
                                m2,
                                i as int,
                                target,
                                replacement,
                                trampoline,
                                behavior,
                            );
                        }
                        Ok(HookBinding { target, replacement, trampoline })
                    },
                    SimCode::Hooked { .. } => Err(ExtensionError::HookInstall),
                }
            },
            None => Err(ExtensionError::HookInstall),
        }
    }

    /// Call `addr`: follow a hooked entry through its replacement — whose
    /// continuation is computed by the replacement's own forwarding rule —
    /// and return the addresses passed through and the result.
    pub fn invoke(&self, addr: u64, args: FrameArgs) -> (r: (Vec<u64>, Option<u64>))
        requires
            self.wf(),
        ensures
            (r.0@, r.1) == spec_invoke(self.model(), addr, args),
    {
        let entry = self.find_slot(addr);
        match entry {
            None => (Vec::new(), None),
            Some(i) => {
                let code = self.slots[i].code;
                match code {
                    SimCode::Native { behavior } => {
                        let mut trace: Vec<u64> = Vec::new();
                        trace.push(addr);
                        proof {
                            assert(trace@ =~= seq![addr]);
                        }
                        (trace, Some(native_result(behavior, args)))
                    },
                    SimCode::Hooked { replacement, trampoline } => {
                        let binding = HookBinding { target: addr, replacement, trampoline };
                        let forward: ForwardCall = thunk_forward(&binding, args);
                        let next = self.find_slot(forward.target);
                        match next {
                            Some(j) => {
                                let tramp_code = self.slots[j].code;
                                match tramp_code {
                                    SimCode::Native { behavior } => {
                                        let mut trace: Vec<u64> = Vec::new();
                                        trace.push(addr);
                                        trace.push(replacement);
                                        trace.push(forward.target);
                                        proof {
                                            assert(trace@ =~= seq![
                                                addr,
                                                replacement,
                                                trampoline,
                                            ]);
                                        }
                                        (trace, Some(native_result(behavior, forward.args)))
                                    },
                                    SimCode::Hooked { .. } => {
                                        let mut trace: Vec<u64> = Vec::new();
                                        trace.push(addr);
                                        trace.push(replacement);
                                        proof {
                                            assert(trace@ =~= seq![addr, replacement]);
                                        }
                                        (trace, None)
                                    },
                                }
                            },
                            None => {
                                let mut trace: Vec<u64> = Vec::new();
                                trace.push(addr);
                                trace.push(replacement);
                                proof {
                                    assert(trace@ =~= seq![addr, replacement]);
                                }
                                (trace, None)
                            },
                        }
                    },
                }
            },
        }
    }
}

/// The concrete result of a native simulated function.
pub fn native_result(behavior: u64, args: FrameArgs) -> (r: u64)
    ensures
        r == spec_native_result(behavior, args),
{
    behavior ^ (args.width as u64) ^ ((args.height as u64) << 8) ^ ((args.lod_bias_bits as u64)
        << 16) ^ ((args.fps_bits as u64) << 24) ^ ((args.elapsed as u64) << 32)
}

/// Appending a slot at a fresh address leaves every other address's code
/// unchanged and makes the new address callable.
proof fn lemma_push_code_at(m: Seq<(u64, SimCode)>, address: u64, code: SimCode)
    requires
        model_addrs_unique(m),
        model_code_at(m, address) is None,
    ensures
        model_addrs_unique(m.push((address, code))),
        model_code_at(m.push((address, code)), address) == Some(code),
        forall|a: u64| a != address ==> #[trigger] model_code_at(m.push((address, code)), a)
            == model_code_at(m, a),
{
    let m1 = m.push((address, code));
    assert forall|i: int, j: int|
        #![trigger m1[i].0, m1[j].0]
        0 <= i < m1.len() && 0 <= j < m1.len() && m1[i].0 == m1[j].0 implies i == j by {
        if i < m.len() && j < m.len() {
            assert(m[i].0 == m[j].0);
        } else if i < m.len() && j == m.len() {
            assert(exists|k: int| 0 <= k < m.len() && m[k].0 == address);
        } else if j < m.len() && i == m.len() {
            assert(exists|k: int| 0 <= k < m.len() && m[k].0 == address);
        }
    }
    assert(m1[m.len() as int].0 == address);
    let k = choose|k: int| 0 <= k < m1.len() && m1[k].0 == address;
    assert(k == m.len() as int);
    assert forall|a: u64| a != address implies #[trigger] model_code_at(m1, a) == model_code_at(
        m,
        a,
    ) by {
        if exists|i: int| 0 <= i < m.len() && m[i].0 == a {
            let i = choose|i: int| 0 <= i < m.len() && m[i].0 == a;
            assert(m1[i].0 == a);
            let i1 = choose|i1: int| 0 <= i1 < m1.len() && m1[i1].0 == a;
            assert(i1 < m.len() && m[i1].0 == a);
            assert(i1 == i);
        } else {
            if exists|i: int| 0 <= i < m1.len() && m1[i].0 == a {
                let i = choose|i: int| 0 <= i < m1.len() && m1[i].0 == a;
                assert(i < m.len() && m[i].0 == a);
            }
        }
    }
}

/// What the installer's rewrite does to each address's code: the target
/// becomes a redirect, the trampoline carries the target's old behavior,
/// and everything else is untouched.
proof fn lemma_install_code_at(
    m0: Seq<(u64, SimCode)>,
    m2: Seq<(u64, SimCode)>,
    i: int,
    target: u64,
    replacement: u64,
    trampoline: u64,
    behavior: u64,
)
    requires
        model_addrs_unique(m0),
        0 <= i < m0.len(),
        m0[i] == (target, SimCode::Native { behavior }),
        model_code_at(m0, trampoline) is None,
        trampoline != target,
        m2 == m0.update(i, (target, SimCode::Hooked { replacement, trampoline })).push(
            (trampoline, SimCode::Native { behavior }),
        ),
    ensures
        model_addrs_unique(m2),
        model_code_at(m2, target) == Some(SimCode::Hooked { replacement, trampoline }),
        model_code_at(m2, trampoline) == Some(SimCode::Native { behavior }),
        forall|a: u64| a != target && a != trampoline ==> #[trigger] model_code_at(m2, a)
            == model_code_at(m0, a),
{
    let m1 = m0.update(i, (target, SimCode::Hooked { replacement, trampoline }));
    assert(forall|j: int| 0 <= j < m1.len() ==> (#[trigger] m1[j]).0 == m0[j].0);
    assert(model_addrs_unique(m1));
    assert(model_code_at(m1, trampoline) is None) by {
        if exists|k: int| 0 <= k < m1.len() && m1[k].0 == trampoline {
            let k = choose|k: int| 0 <= k < m1.len() && m1[k].0 == trampoline;
            assert(m0[k].0 == trampoline);
        }
    }
    lemma_push_code_at(m1, trampoline, SimCode::Native { behavior });
    assert(model_code_at(m1, target) == Some(SimCode::Hooked { replacement, trampoline })) by {
        assert(m1[i].0 == target);
        let k = choose|k: int| 0 <= k < m1.len() && m1[k].0 == target;
        assert(k == i);
    }
    assert forall|a: u64| a != target && a != trampoline implies #[trigger] model_code_at(m2, a)
        == model_code_at(m0, a) by {
        assert(model_code_at(m2, a) == model_code_at(m1, a));
        if exists|k: int| 0 <= k < m0.len() && m0[k].0 == a {
            let k = choose|k: int| 0 <= k < m0.len() && m0[k].0 == a;
            assert(m1[k].0 == a);
            let k1 = choose|k1: int| 0 <= k1 < m1.len() && m1[k1].0 == a;
            assert(m0[k1].0 == a);
            assert(k1 == k);
            assert(k != i);
            assert(m1[k] == m0[k]);
        } else {
            if exists|k: int| 0 <= k < m1.len() && m1[k].0 == a {
                let k = choose|k: int| 0 <= k < m1.len() && m1[k].0 == a;
                assert(m0[k].0 == a);
            }
        }
    }
}

/// The redirect guarantee, stated over the simulated process. After a hook
/// is installed on `target`: every call to `target` executes the
/// replacement first; the call flows on through the trampoline to the
/// original behavior and returns a result bit-identical to the pre-hook
/// call with the same arguments; and calling the trampoline itself behaves
/// exactly like the pre-hook target.
pub proof fn lemma_hook_redirects(
    pre: Seq<(u64, SimCode)>,
    post: Seq<(u64, SimCode)>,
    target: u64,
    replacement: u64,
    trampoline: u64,
    behavior: u64,
    args: FrameArgs,
)
    requires
        model_code_at(pre, target) == Some(SimCode::Native { behavior }),
        model_code_at(post, target) == Some(SimCode::Hooked { replacement, trampoline }),
        model_code_at(post, trampoline) == Some(SimCode::Native { behavior }),
    ensures
        spec_invoke(post, target, args).0 == seq![target, replacement, trampoline],
        spec_invoke(post, target, args).0[1] == replacement,
        spec_invoke(post, target, args).1 == spec_invoke(pre, target, args).1,
        spec_invoke(post, trampoline, args).1 == spec_invoke(pre, target, args).1,
{
}

} // verus!
