use vstd::prelude::*;

verus! {

/// Errors of the platform binding.
#[derive(Clone, Copy, Debug, PartialEq, Eq, Structural)]
pub enum AxPlatformError {
    /// The native window class could not be registered; fatal to window
    /// creation.
    ClassRegistrationFailed,
    /// The OS refused to create the native window.
    CreationFailed,
    /// An operation other than destroy was attempted on a destroyed window.
    UseAfterDestroy,
    /// A best-effort OS query failed; callers fall back to a documented
    /// default instead of propagating this.
    PlatformQueryFailed,
}

/// The DPI the platform assumes when a monitor query fails.
pub const USER_DEFAULT_SCREEN_DPI: u32 = 96;

/// The DPI to use given the result of a best-effort monitor query: the
/// queried value when the query succeeded, the documented default otherwise.
pub fn effective_dpi(query: Option<u32>) -> (r: u32)
    ensures
        match query {
            Some(dpi) => r == dpi,
            None => r == USER_DEFAULT_SCREEN_DPI,
        },
{
    match query {
        Some(dpi) => dpi,
        None => USER_DEFAULT_SCREEN_DPI,
    }
}

/// Process-scoped state of the native windowing binding: whether the
/// process-wide window class has been registered, and the identity
/// registry of live native handles.
///
/// The native layer keeps the handle-to-window back-references themselves;
/// this record tracks which handles are bound, so that a handle is bound at
/// most once and is unbound before its window state is freed.
pub struct AxPlatformBinding {
    registered: bool,
    registry: Vec<u64>,
}

impl AxPlatformBinding {
    /// Whether the process-wide window class has been registered.
    pub closed spec fn class_registered(&self) -> bool {
        self.registered
    }

    /// The set of native handles currently bound in the identity registry.
    pub closed spec fn handles(&self) -> Set<u64> {
        self.registry@.to_set()
    }

    /// Each live handle is bound at most once, and the invalid handle is
    /// never bound.
    pub closed spec fn inv(&self) -> bool {
        self.registry@.no_duplicates() && !self.registry@.contains(0)
    }

    /// The registry invariant keeps the invalid handle out of the registry.
    pub proof fn lemma_inv_excludes_zero(&self)
        requires
            self.inv(),
        ensures
            !self.handles().contains(0u64),
    {
    }

    pub fn new() -> (r: AxPlatformBinding)
        ensures
            r.inv(),
            !r.class_registered(),
            r.handles() == Set::<u64>::empty(),
    {
        let r = AxPlatformBinding { registered: false, registry: Vec::new() };
        proof {
            assert(r.handles() =~= Set::<u64>::empty());
        }
        r
    }

    pub fn is_class_registered(&self) -> (r: bool)
        ensures
            r == self.class_registered(),
    {
        self.registered
    }

    /// Registers the process-wide window class, at most once.
    ///
    /// `native_ok` reports whether the native registration call, made only
    /// when no prior registration exists, succeeded. Once registered, later
    /// calls succeed without consulting the native layer.
    pub fn register_window_class(&mut self, native_ok: bool) -> (r: Result<(), AxPlatformError>)
        requires
            old(self).inv(),
        ensures
            final(self).inv(),
            final(self).handles() == old(self).handles(),
            final(self).class_registered() == (old(self).class_registered() || native_ok),
            r is Ok <==> (old(self).class_registered() || native_ok),
            r is Err ==> r == Err::<(), AxPlatformError>(AxPlatformError::ClassRegistrationFailed),
    {
        if self.registered {
            Ok(())
        } else if native_ok {
            self.registered = true;
            Ok(())
        } else {
            Err(AxPlatformError::ClassRegistrationFailed)
        }
    }

    /// The index of `x` in `v`, if present.
    fn index_of(v: &Vec<u64>, x: u64) -> (r: Option<usize>)
        ensures
            match r {
                Some(i) => i < v@.len() && v@[i as int] == x,
                None => !v@.contains(x),
            },
    {
        let mut i: usize = 0;
        while i < v.len()
            invariant
                i <= v@.len(),
                forall|k: int| 0 <= k < i ==> v@[k] != x,
            decreases v@.len() - i,
        {
            if v[i] == x {
                return Some(i);
            }
            i += 1;
        }
        None
    }

    /// Whether `handle` is currently bound.
    pub fn is_bound(&self, handle: u64) -> (r: bool)
        ensures
            r == self.handles().contains(handle),
    {
        match Self::index_of(&self.registry, handle) {
            Some(_) => true,
            None => false,
        }
    }

    /// Binds a fresh live handle in the identity registry.
    pub fn bind(&mut self, handle: u64)
        requires
            old(self).inv(),
            handle != 0,
            !old(self).handles().contains(handle),
        ensures
            final(self).inv(),
            final(self).handles() == old(self).handles().insert(handle),
            final(self).class_registered() == old(self).class_registered(),
    {
        self.registry.push(handle);
        proof {
            let s0 = old(self).registry@;
            let s1 = self.registry@;
            assert forall|i: int, j: int| 0 <= i < j < s1.len() implies s1[i] != s1[j] by {
                if j == s1.len() - 1 {
                    assert(s0.contains(s0[i]));
                }
            }
            assert(!s1.contains(0)) by {
                if s1.contains(0) {
                    let k = choose|k: int| 0 <= k < s1.len() && s1[k] == 0;
                    assert(k < s0.len());
                    assert(s0.contains(0));
                }
            }
            assert(self.handles() =~= old(self).handles().insert(handle)) by {
                assert forall|x: u64| s1.contains(x) implies (s0.contains(x) || x == handle) by {
                    let k = choose|k: int| 0 <= k < s1.len() && s1[k] == x;
                    if k < s0.len() {
                        assert(s0[k] == x);
                    }
                }
                assert forall|x: u64| s0.contains(x) implies s1.contains(x) by {
                    let k = choose|k: int| 0 <= k < s0.len() && s0[k] == x;
                    assert(s1[k] == x);
                }
                assert(s1[s0.len() as int] == handle);
            }
        }
    }

    /// Unbinds a handle; a no-op if the handle is not bound.
    pub fn unbind(&mut self, handle: u64)
        requires
            old(self).inv(),
        ensures
            final(self).inv(),
            final(self).handles() == old(self).handles().remove(handle),
            final(self).class_registered() == old(self).class_registered(),
    {
        match Self::index_of(&self.registry, handle) {
            Some(i) => {
                self.registry.remove(i);
                proof {
                    let s0 = old(self).registry@;
                    let s1 = self.registry@;
                    s0.remove_ensures(i as int);
                    assert forall|a: int, b: int| 0 <= a < b < s1.len() implies s1[a] != s1[b] by {
                        let a0: int = if a < i { a } else { a + 1 };
                        let b0: int = if b < i { b } else { b + 1 };
                        assert(s1[a] == s0[a0]);
                        assert(s1[b] == s0[b0]);
                    }
                    assert(!s1.contains(0)) by {
                        if s1.contains(0) {
                            let k = choose|k: int| 0 <= k < s1.len() && s1[k] == 0;
                            let k0: int = if k < i { k } else { k + 1 };
                            assert(s1[k] == s0[k0]);
                            assert(s0.contains(0));
                        }
                    }
                    assert(self.handles() =~= old(self).handles().remove(handle)) by {
                        assert forall|x: u64| s1.contains(x) implies (s0.contains(x) && x != handle) by {
                            let k = choose|k: int| 0 <= k < s1.len() && s1[k] == x;
                            let k0: int = if k < i { k } else { k + 1 };
                            assert(s1[k] == s0[k0]);
                            assert(s0.contains(x));
                            assert(s0[i as int] == handle);
                        }
                        assert forall|x: u64| s0.contains(x) && x != handle implies s1.contains(x) by {
                            let k = choose|k: int| 0 <= k < s0.len() && s0[k] == x;
                            if k < i {
                                assert(s1[k] == s0[k]);
                            } else {
                                assert(k != i);
                                assert(s1[k - 1] == s0[k]);
                            }
                        }
                    }
                }
            },
            None => {
                proof {
                    assert(self.handles() =~= old(self).handles().remove(handle));
                }
            },
        }
    }
}

} // verus!
