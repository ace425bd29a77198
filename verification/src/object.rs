//! Kernel objects.
//!
//! A kernel object must be initialised before it is used, and must not move afterwards, as the
//! kernel keeps pointers to it.  [`ZephyrObject`] initialises its object on first use, and
//! remembers at which address that was.  [`StaticKernelObject`] is for objects that the user
//! initialises by hand, once.
use crate::raw::{Addr, Call};
use vstd::prelude::*;

verus! {

/// A kernel object that is initialised when it is first used.
pub struct ZephyrObject<T> {
    /// Zero before the initialisation, then the address at which the object was initialised.
    pub state: usize,
    /// What the object holds before the kernel knows of it.
    pub object: T,
}

/// An object that the kernel has to be told of.
pub trait ObjectInit: Sized {
    /// The calls that initialise the object at `addr`.
    spec fn init_calls(&self, addr: Addr) -> Seq<Call>;

    /// The calls that initialise the object at `addr`.
    fn init(&self, addr: Addr) -> (calls: Vec<Call>)
        ensures
            calls@ == self.init_calls(addr),
    ;
}

impl<T: ObjectInit> ZephyrObject<T> {
    /// Whether the object can be used at `addr`: it is not initialised yet, or it was at `addr`.
    pub open spec fn usable(self, addr: Addr) -> bool {
        addr != 0 && (self.state == 0 || self.state == addr)
    }

    /// The calls that have to be made before the object is used at `addr`.
    pub open spec fn get_calls(self, addr: Addr) -> Seq<Call> {
        if self.state == 0 {
            self.object.init_calls(addr)
        } else {
            Seq::empty()
        }
    }

    /// The object after it was used at `addr`.
    pub open spec fn after_get(self, addr: Addr) -> ZephyrObject<T> {
        ZephyrObject { state: addr, object: self.object }
    }

    /// Wrap an object that is not initialised yet.
    pub fn new_raw(object: T) -> (r: ZephyrObject<T>)
        ensures
            r.state == 0,
            r.object == object,
    {
        ZephyrObject { state: 0, object }
    }

    /// The object itself, whether or not it was initialised.
    pub fn get_uninit(&self) -> (object: &T)
        ensures
            *object == self.object,
    {
        &self.object
    }

    /// Whether the object was initialised at another address than `addr`, so that it must not be
    /// used any more.
    pub fn moved(&self, addr: Addr) -> (r: bool)
        ensures
            addr != 0 ==> r == !self.usable(addr),
    {
        self.state != 0 && self.state != addr
    }

    /// Get the object, which is at `addr`, ready for use: the calls that come before any other call
    /// on the object.
    pub fn get(&mut self, addr: Addr) -> (calls: Vec<Call>)
        requires
            old(self).usable(addr),
        ensures
            calls@ == old(self).get_calls(addr),
            *final(self) == old(self).after_get(addr),
    {
        if self.state == 0 {
            let calls = self.object.init(addr);
            self.state = addr;
            calls
        } else {
            Vec::new()
        }
    }
}

/// The calls that `n` uses of an object at one address make to get it ready.
pub open spec fn calls_of_gets<T: ObjectInit>(o: ZephyrObject<T>, addr: Addr, n: nat) -> Seq<Call>
    decreases n,
{
    if n == 0 {
        Seq::empty()
    } else {
        o.get_calls(addr) + calls_of_gets(o.after_get(addr), addr, (n - 1) as nat)
    }
}

/// However often an object is used at one address, it is initialised exactly once.
pub proof fn law_object_inits_once<T: ObjectInit>(o: ZephyrObject<T>, addr: Addr, n: nat)
    requires
        o.state == 0,
        addr != 0,
        n > 0,
    ensures
        calls_of_gets(o, addr, n) == o.object.init_calls(addr),
{
    lemma_initialised_object_makes_no_calls(o.after_get(addr), addr, (n - 1) as nat);
    assert(o.object.init_calls(addr) + Seq::empty() =~= o.object.init_calls(addr));
}

proof fn lemma_initialised_object_makes_no_calls<T: ObjectInit>(
    o: ZephyrObject<T>,
    addr: Addr,
    n: nat,
)
    requires
        o.state == addr,
        addr != 0,
    ensures
        calls_of_gets(o, addr, n) == Seq::<Call>::empty(),
    decreases n,
{
    if n > 0 {
        lemma_initialised_object_makes_no_calls(o.after_get(addr), addr, (n - 1) as nat);
        assert(Seq::<Call>::empty() + Seq::<Call>::empty() =~= Seq::<Call>::empty());
    }
}

/// An object that was used at one address can never be used at another.
pub proof fn law_object_stays<T: ObjectInit>(o: ZephyrObject<T>, addr: Addr, other: Addr)
    requires
        o.usable(addr),
    ensures
        o.after_get(addr).usable(other) <==> other == addr,
{
}

/// A static object from which the user makes a handle, once.
pub trait Wrapped: Sized {
    /// The type of the handle.
    type T;

    /// What the handle is made with.
    type I;

    /// The handle for the object at `addr`.
    spec fn wrapped(&self, addr: Addr, args: Self::I) -> Self::T;

    /// The calls that initialise the object at `addr`.
    spec fn wrapped_calls(&self, addr: Addr, args: Self::I) -> Seq<Call>;

    /// Make the handle for the object at `addr`, and the calls that initialise it.
    fn get_wrapped(&self, addr: Addr, args: Self::I) -> (r: (Self::T, Vec<Call>))
        ensures
            r.0 == self.wrapped(addr, args),
            r.1@ == self.wrapped_calls(addr, args),
    ;
}

/// The state of a static object that was not initialised.
pub const KOBJ_UNINITIALIZED: usize = 0;

/// The state of a static object that is being initialised.
pub const KOBJ_INITING: usize = 1;

/// The state of a static object that was initialised.
pub const KOBJ_INITIALIZED: usize = 2;

/// A static kernel object.
pub struct StaticKernelObject<T> {
    /// The kernel's object.
    pub value: T,
    /// Whether the object was initialised: one of the `KOBJ_` constants.
    pub init: usize,
}

impl<T> StaticKernelObject<T> {
    /// Whether the state is one of the three states.
    pub open spec fn wf(self) -> bool {
        self.init <= KOBJ_INITIALIZED
    }

    /// The state that a call of `init_once` leaves.
    pub open spec fn init_after_once(init: usize) -> usize {
        if init == KOBJ_UNINITIALIZED {
            KOBJ_INITING
        } else {
            init
        }
    }

    /// An object that is not initialised yet.
    pub fn new(value: T) -> (r: StaticKernelObject<T>)
        ensures
            r.wf(),
            r.init == KOBJ_UNINITIALIZED,
            r.value == value,
    {
        StaticKernelObject { value, init: KOBJ_UNINITIALIZED }
    }

    /// The calls that initialise the object were made.
    pub fn init_done(&mut self)
        requires
            old(self).init == KOBJ_INITING,
        ensures
            final(self).wf(),
            final(self).init == KOBJ_INITIALIZED,
            final(self).value == old(self).value,
    {
        self.init = KOBJ_INITIALIZED;
    }
}

impl<T> StaticKernelObject<T> where StaticKernelObject<T>: Wrapped {
    /// Make the handle of the object at `addr`.  The first call gets it, with the calls that
    /// initialise the object, after which comes `init_done`; any other gets `None`.
    pub fn init_once(&mut self, addr: Addr, args: <Self as Wrapped>::I) -> (r: Option<
        (<Self as Wrapped>::T, Vec<Call>),
    >)
        requires
            old(self).wf(),
        ensures
            final(self).wf(),
            final(self).value == old(self).value,
            final(self).init == Self::init_after_once(old(self).init),
            r is Some <==> old(self).init == KOBJ_UNINITIALIZED,
            r matches Some(made) ==> made.0 == old(self).wrapped(addr, args) && made.1@ == old(
                self,
            ).wrapped_calls(addr, args),
    {
        if self.init != KOBJ_UNINITIALIZED {
            return None;
        }
        let made = self.get_wrapped(addr, args);
        self.init = KOBJ_INITING;
        Some(made)
    }
}

/// What is done to the state of a static object.
pub enum InitStep {
    /// A call of `init_once`.
    Once,
    /// A call of `init_done`.
    Done,
}

/// The state of a static object after some steps.
pub open spec fn init_after_steps<T>(init: usize, steps: Seq<InitStep>) -> usize
    decreases steps.len(),
{
    if steps.len() == 0 {
        init
    } else {
        match steps.last() {
            InitStep::Once => StaticKernelObject::<T>::init_after_once(
                init_after_steps::<T>(init, steps.drop_last()),
            ),
            InitStep::Done => KOBJ_INITIALIZED,
        }
    }
}

/// Whatever is done to a static object after its first `init_once`, it is never uninitialised
/// again, so that no further `init_once` gets a handle.
pub proof fn law_static_object_inits_once<T>(init: usize, steps: Seq<InitStep>)
    ensures
        init_after_steps::<T>(StaticKernelObject::<T>::init_after_once(init), steps)
            != KOBJ_UNINITIALIZED,
    decreases steps.len(),
{
    if steps.len() > 0 {
        law_static_object_inits_once::<T>(init, steps.drop_last());
    }
}

/// A place for a kernel object that does not move: a static one, or one on the heap.
pub enum Fixed<T> {
    /// A static object, by its address.
    Static(Addr),
    /// An object on the heap that this value owns, and its address.
    Owned(Addr, Box<T>),
}

impl<T> Fixed<T> {
    /// The address of the object.
    pub open spec fn addr(self) -> Addr {
        match self {
            Fixed::Static(addr) => addr,
            Fixed::Owned(addr, _) => addr,
        }
    }

    /// The object, where this value owns it.
    pub open spec fn item(self) -> Option<T> {
        match self {
            Fixed::Static(_) => None,
            Fixed::Owned(_, item) => Some(*item),
        }
    }

    /// The address of the object.
    pub fn get(&self) -> (addr: Addr)
        ensures
            addr == self.addr(),
    {
        match self {
            Fixed::Static(addr) => *addr,
            Fixed::Owned(addr, _) => *addr,
        }
    }

    /// Own an object that was put on the heap at `addr`.
    pub fn new(addr: Addr, item: Box<T>) -> (r: Fixed<T>)
        ensures
            r == Fixed::Owned(addr, item),
    {
        Fixed::Owned(addr, item)
    }
}

/// Moving a [`Fixed`] does not move its object: `moved`, which is the value at another place, still
/// tells the address that the object was put at, and owns that object.  A static one still tells
/// the address that it was made with.
pub proof fn law_fixed_stays<T>(addr: Addr, item: Box<T>, moved: Fixed<T>)
    requires
        addr != 0,
    ensures
        moved == Fixed::Owned(addr, item) ==> moved.addr() == addr && moved.addr() != 0
            && moved.item() == Some(*item),
        moved == Fixed::<T>::Static(addr) ==> moved.addr() == addr && moved.item() is None,
{
}

/// An object that was not used yet is initialised at the address of its first use, and a second use
/// there makes no call; the object itself is left alone.
pub proof fn law_second_use_makes_no_call<T: ObjectInit>(
    first: &mut ZephyrObject<T>,
    second: &mut ZephyrObject<T>,
    addr: Addr,
    calls: Vec<Call>,
    more: Vec<Call>,
)
    requires
        addr != 0,
        old(first).state == 0 || old(first).state == addr,
        call_ensures(ZephyrObject::<T>::get, (first, addr), calls),
        *old(second) == *final(first),
        call_ensures(ZephyrObject::<T>::get, (second, addr), more),
    ensures
        old(first).state == 0 ==> calls@ == old(first).object.init_calls(addr),
        old(first).state != 0 ==> calls@.len() == 0,
        final(first).state == addr,
        final(first).object == old(first).object,
        more@.len() == 0,
        *final(second) == *old(second),
{
}

/// An object that was used at one address has moved for every other address, and a new one has not
/// moved at all.
pub proof fn law_moved_is_noticed<T: ObjectInit>(
    o: &mut ZephyrObject<T>,
    addr: Addr,
    calls: Vec<Call>,
    after: ZephyrObject<T>,
    object: T,
    new: ZephyrObject<T>,
    other: Addr,
    moved: bool,
    new_moved: bool,
)
    requires
        addr != 0,
        other != 0,
        old(o).state == 0 || old(o).state == addr,
        call_ensures(ZephyrObject::<T>::get, (o, addr), calls),
        after == *final(o),
        call_ensures(ZephyrObject::<T>::moved, (&after, other), moved),
        call_ensures(ZephyrObject::<T>::new_raw, (object,), new),
        call_ensures(ZephyrObject::<T>::moved, (&new, other), new_moved),
    ensures
        moved == (other != addr),
        !new_moved,
{
}

/// A static object gives out its handle once: whatever the state, of two calls of `init_once` the
/// second gets nothing, also where `init_done` came between them.
pub proof fn law_handle_is_given_once<T>(
    first: &mut StaticKernelObject<T>,
    done: &mut StaticKernelObject<T>,
    second: &mut StaticKernelObject<T>,
    addr: Addr,
    args: <StaticKernelObject<T> as Wrapped>::I,
    a: Option<(<StaticKernelObject<T> as Wrapped>::T, Vec<Call>)>,
    b: Option<(<StaticKernelObject<T> as Wrapped>::T, Vec<Call>)>,
) where StaticKernelObject<T>: Wrapped
    requires
        old(first).init <= 2,
        call_ensures(StaticKernelObject::<T>::init_once, (first, addr, args), a),
        *old(done) == *final(first),
        call_ensures(StaticKernelObject::<T>::init_done, (done,), ()),
        *old(second) == *final(first) || *old(second) == *final(done),
        call_ensures(StaticKernelObject::<T>::init_once, (second, addr, args), b),
    ensures
        a is Some <==> old(first).init == 0,
        b is None,
        final(first).value == old(first).value,
        a is Some ==> final(first).init == 1,
        a is None ==> final(first).init == old(first).init,
        final(done).init == 2,
        final(done).value == old(first).value,
{
}

/// A [`Fixed`] that owns an object tells the address that it was made with, and a static one its
/// own.
pub proof fn law_fixed_tells_address<T>(
    addr: Addr,
    item: Box<T>,
    owned: Fixed<T>,
    told: Addr,
    fixed: Fixed<T>,
    other: Addr,
)
    requires
        call_ensures(Fixed::<T>::new, (addr, item), owned),
        call_ensures(Fixed::<T>::get, (&owned,), told),
        call_ensures(Fixed::<T>::get, (&fixed,), other),
    ensures
        told == addr,
        fixed matches Fixed::Static(at) ==> other == at,
        fixed matches Fixed::Owned(at, _) ==> other == at,
{
}

} // verus!
