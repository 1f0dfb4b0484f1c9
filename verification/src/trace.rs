//! A textual rendering of a component tree, for inspection.
//!
//! A component is written as `<Name field:value field:value >`.
use vstd::prelude::*;
use vstd::string::*;

verus! {

/// The decimal digits of `n` as ASCII, most significant first.
pub open spec fn decimal(n: nat) -> Seq<u8>
    decreases n,
{
    if n < 10 {
        seq![(48 + n) as u8]
    } else {
        decimal(n / 10).push((48 + n % 10) as u8)
    }
}

/// What opens the rendering of a component called `name`.
pub open spec fn opening(name: &str) -> Seq<u8> {
    seq![60u8] + name.spec_bytes() + seq![32u8]
}

/// What closes the rendering of a component.
pub open spec fn closing() -> Seq<u8> {
    seq![62u8]
}

/// The rendering of a field called `name` whose value is rendered as `value`.
pub open spec fn field(name: &str, value: Seq<u8>) -> Seq<u8> {
    name.spec_bytes() + seq![58u8] + value + seq![32u8]
}

/// Collects the rendering.
pub struct Tracer {
    pub out: Vec<u8>,
}

impl View for Tracer {
    type V = Seq<u8>;

    open spec fn view(&self) -> Seq<u8> {
        self.out@
    }
}

/// A value that can render itself.
pub trait Trace {
    /// The rendering of `self`. A type that does not say what it is
    /// still renders the same value in the same way every time.
    open spec fn traced(&self) -> Seq<u8> {
        arbitrary::<spec_fn(&Self) -> Seq<u8>>()(self)
    }

    /// Appends the rendering of `self` to `t`.
    fn trace(&self, t: &mut Tracer)
        ensures
            final(t)@ == old(t)@ + self.traced(),
    ;
}

impl Tracer {
    pub fn new() -> (t: Tracer)
        ensures
            t@ == Seq::<u8>::empty(),
    {
        Tracer { out: Vec::new() }
    }

    /// Appends `bytes` as they are.
    pub fn bytes(&mut self, bytes: &[u8])
        ensures
            final(self)@ == old(self)@ + bytes@,
    {
        let mut i: usize = 0;
        while i < bytes.len()
            invariant
                i <= bytes.len(),
                self@ == old(self)@ + bytes@.subrange(0, i as int),
            decreases bytes.len() - i,
        {
            self.out.push(bytes[i]);
            i = i + 1;
            assert(self@ =~= old(self)@ + bytes@.subrange(0, i as int));
        }
        assert(bytes@.subrange(0, bytes.len() as int) =~= bytes@);
    }

    /// Appends `s` as it is.
    pub fn string(&mut self, s: &str)
        ensures
            final(self)@ == old(self)@ + s.spec_bytes(),
    {
        self.bytes(s.as_bytes());
    }

    /// Appends the decimal digits of `v`.
    pub fn number(&mut self, v: usize)
        ensures
            final(self)@ == old(self)@ + decimal(v as nat),
        decreases v,
    {
        if v >= 10 {
            self.number(v / 10);
        }
        self.out.push((48 + v % 10) as u8);
        assert(self@ =~= old(self)@ + decimal(v as nat));
    }

    /// Begins the rendering of a component called `name`.
    pub fn open(&mut self, name: &str)
        ensures
            final(self)@ == old(self)@ + opening(name),
    {
        self.out.push(60);
        self.string(name);
        self.out.push(32);
        assert(self@ =~= old(self)@ + opening(name));
    }

    /// Renders `value` as the field called `name`.
    pub fn field<T: Trace>(&mut self, name: &str, value: &T)
        ensures
            final(self)@ == old(self)@ + field(name, value.traced()),
    {
        self.string(name);
        self.out.push(58);
        value.trace(self);
        self.out.push(32);
        assert(self@ =~= old(self)@ + field(name, value.traced()));
    }

    /// Ends the rendering of a component.
    pub fn close(&mut self)
        ensures
            final(self)@ == old(self)@ + closing(),
    {
        self.out.push(62);
        assert(self@ =~= old(self)@ + closing());
    }
}

impl Trace for usize {
    open spec fn traced(&self) -> Seq<u8> {
        decimal(*self as nat)
    }

    fn trace(&self, t: &mut Tracer) {
        t.number(*self);
    }
}

} // verus!
