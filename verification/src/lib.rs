//! A single-owner, runtime-checked exclusive-access cell.
//!
//! A [`Property`] owns one value and hands out a temporary, exclusive
//! read/write capability to it, a [`PropertyBinding`], enforcing that at
//! most one such binding exists at a time. A boolean lock flag records
//! whether a binding is outstanding; [`Property::try_bind`] tests the flag
//! at run time and reports an already-bound property as an error, while
//! [`Property::bind`] demands in its precondition that the property is
//! unbound. A binding is handed back with [`Property::release`], which
//! clears the flag, so the property cycles between unbound and bound for
//! its whole lifetime.

use vstd::pervasive::unreached;
use vstd::prelude::*;

verus! {

/// A binding to a [`Property`]: a capability object granting exclusive
/// read and write access to the property's value until it is handed back
/// with [`Property::release`].
///
/// A binding can be neither cloned nor copied, so no second binding can be
/// made from an existing one: the only source of bindings is a successful
/// bind, and that claims the property's lock first.
pub struct PropertyBinding<T> {
    value: T,
}

impl<T> View for PropertyBinding<T> {
    type V = T;

    closed spec fn view(&self) -> T {
        self.value
    }
}

impl<T> PropertyBinding<T> {
    /// Read access: a shared reference to the bound value, usable any
    /// number of times while the binding is alive.
    pub fn get(&self) -> (r: &T)
        ensures
            *r == self@,
    {
        &self.value
    }

    /// Write access: an exclusive reference to the bound value. The
    /// binding afterwards views whatever was written through it.
    pub fn get_mut(&mut self) -> (r: &mut T)
        ensures
            *r == old(self)@,
            final(self)@ == *final(r),
    {
        &mut self.value
    }
}

/// A bindable property: owns exactly one value and arbitrates exclusive
/// access to it through a single boolean lock flag.
///
/// The flag is `true` exactly while a [`PropertyBinding`] is outstanding.
/// While the property is bound, the value is out on the binding and the
/// property's slot is empty; releasing the binding restores it.
pub struct Property<T> {
    slot: Option<T>,
    locked: bool,
    issued: Ghost<nat>,
}

impl<T> Property<T> {
    /// Whether a binding is currently outstanding (the lock flag).
    pub closed spec fn is_bound(&self) -> bool {
        self.locked
    }

    /// The value a successful bind would hand out; meaningful only while
    /// the property is unbound.
    pub closed spec fn value(&self) -> T {
        self.slot->0
    }

    /// How many live bindings this property has issued and not yet taken
    /// back.
    pub closed spec fn live_bindings(&self) -> nat {
        self.issued@
    }

    /// Well-formedness: the lock flag is set exactly while the value is
    /// out on a binding, and exactly one binding is live while it is set.
    pub closed spec fn wf(&self) -> bool {
        &&& self.locked <==> self.slot is None
        &&& self.issued@ == if self.locked {
            1nat
        } else {
            0nat
        }
    }

    /// Creates a new `Property` that owns the given value, with the lock
    /// flag clear.
    pub fn new(value: T) -> (r: Property<T>)
        ensures
            r.wf(),
            !r.is_bound(),
            r.value() == value,
    {
        Property { slot: Some(value), locked: false, issued: Ghost(0nat) }
    }

    /// Binds the property, claiming the lock and handing out a binding
    /// that views the owned value.
    ///
    /// The precondition demands that the property is not already bound, so
    /// a verified caller can never attempt a double bind; use
    /// [`try_bind`](Property::try_bind) where bound-ness is not known.
    pub fn bind(&mut self) -> (b: PropertyBinding<T>)
        requires
            old(self).wf(),
            !old(self).is_bound(),
        ensures
            final(self).wf(),
            final(self).is_bound(),
            final(self).live_bindings() == old(self).live_bindings() + 1,
            b@ == old(self).value(),
    {
        match self.try_bind() {
            Ok(b) => b,
            Err(()) => unreached(),
        }
    }

    /// Attempts to bind the property: claims the lock and returns a
    /// binding if the property was unbound, and reports `Err(())` if it
    /// was already bound, leaving it untouched. Success and failure are
    /// mutually exclusive and exhaustive: the call fails exactly when the
    /// property was bound at the instant of the call.
    pub fn try_bind(&mut self) -> (r: Result<PropertyBinding<T>, ()>)
        requires
            old(self).wf(),
        ensures
            final(self).wf(),
            old(self).is_bound() <==> r is Err,
            r is Err ==> *final(self) == *old(self),
            r matches Ok(b) ==> {
                &&& b@ == old(self).value()
                &&& final(self).is_bound()
                &&& final(self).live_bindings() == old(self).live_bindings() + 1
            },
    {
        let was_locked = self.locked;
        if was_locked {
            Err(())
        } else {
            self.locked = true;
            self.issued = Ghost(self.issued@ + 1);
            let v = self.slot.take().unwrap();
            Ok(PropertyBinding { value: v })
        }
    }

    /// Takes a binding back, clearing the lock flag: the property is
    /// unbound again and owns whatever value the binding last viewed.
    ///
    /// Consuming the binding makes a double release unrepresentable, and
    /// the precondition rules out releasing into a property that is not
    /// bound, so the lock flag can never be cleared twice for one bind.
    pub fn release(&mut self, binding: PropertyBinding<T>)
        requires
            old(self).wf(),
            old(self).is_bound(),
        ensures
            final(self).wf(),
            !final(self).is_bound(),
            final(self).live_bindings() == old(self).live_bindings() - 1,
            final(self).value() == binding@,
    {
        self.locked = false;
        self.issued = Ghost((self.issued@ - 1) as nat);
        self.slot = Some(binding.value);
    }
}

/// Single-owner law: at any instant, a well-formed property has at most
/// one live binding, and it has exactly one precisely while its lock flag
/// is set.
pub proof fn lemma_single_owner<T>(p: Property<T>)
    requires
        p.wf(),
    ensures
        p.live_bindings() <= 1,
        p.live_bindings() == 1 <==> p.is_bound(),
{
}

/// Exclusion law: while a binding is live the property is bound, so by the
/// contract of `try_bind` a second bind attempt fails, and the
/// precondition of `bind` cannot be established.
pub proof fn lemma_exclusion<T>(p: Property<T>)
    requires
        p.wf(),
        p.live_bindings() == 1,
    ensures
        p.is_bound(),
{
}

/// Release re-entry law: once no binding is live the property is unbound,
/// so a subsequent `bind` meets its precondition and `try_bind` meets its
/// success condition.
pub proof fn lemma_release_reentry<T>(p: Property<T>)
    requires
        p.wf(),
        p.live_bindings() == 0,
    ensures
        !p.is_bound(),
{
}

/// Round-trip law: a binding taken from a freshly constructed property
/// views the constructed value. The premises are what `new` and `bind`
/// ensure in turn.
pub proof fn lemma_round_trip<T>(v: T, p: Property<T>, b: PropertyBinding<T>)
    requires
        !p.is_bound(),
        p.value() == v,
        b@ == p.value(),
    ensures
        b@ == v,
{
}

/// Write-visibility law: a value written through a binding is what a later
/// bind observes. The premises are what `get_mut`, `release` and a second
/// `bind` ensure in turn: the binding views the written value `w`, the
/// property after release is unbound and holds the binding's value, and
/// the second binding views that value.
pub proof fn lemma_write_visibility<T>(
    w: T,
    b: PropertyBinding<T>,
    p: Property<T>,
    b2: PropertyBinding<T>,
)
    requires
        b@ == w,
        !p.is_bound(),
        p.value() == b@,
        b2@ == p.value(),
    ensures
        b2@ == w,
{
}

} // verus!
