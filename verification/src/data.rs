//! Tagged numeric values of one, two or four bytes, and their little-endian
//! byte images.

use vstd::prelude::*;

verus! {

/// The size class of a value, a register view or a memory cell.
#[derive(Clone, Copy, Debug, PartialEq, Eq, Structural)]
pub enum Width {
    Byte,
    Word,
    Dword,
}

impl Width {
    /// Number of bytes a value of this width occupies.
    pub open spec fn bytes(self) -> nat {
        match self {
            Width::Byte => 1,
            Width::Word => 2,
            Width::Dword => 4,
        }
    }

    /// One more than the largest value of this width.
    pub open spec fn modulus(self) -> int {
        match self {
            Width::Byte => 0x100,
            Width::Word => 0x1_0000,
            Width::Dword => 0x1_0000_0000,
        }
    }

    /// Number of bytes a value of this width occupies.
    pub fn byte_count(self) -> (n: u16)
        ensures
            n == self.bytes(),
    {
        match self {
            Width::Byte => 1,
            Width::Word => 2,
            Width::Dword => 4,
        }
    }
}

/// Byte `index` (0 is the least significant) of the little-endian image of
/// `value`; zero beyond the fourth byte.
pub open spec fn byte_at(value: u32, index: int) -> u8 {
    if index == 0 {
        (value % 0x100) as u8
    } else if index == 1 {
        ((value / 0x100) % 0x100) as u8
    } else if index == 2 {
        ((value / 0x1_0000) % 0x100) as u8
    } else if index == 3 {
        ((value / 0x100_0000) % 0x100) as u8
    } else {
        0
    }
}

/// The number whose little-endian image is the four given bytes.
pub open spec fn compose(b0: u8, b1: u8, b2: u8, b3: u8) -> u32 {
    (b0 + 0x100 * b1 + 0x1_0000 * b2 + 0x100_0000 * b3) as u32
}

/// The number whose little-endian image is `bytes`, read up to four bytes;
/// missing bytes count as zero.
pub open spec fn le_value(bytes: Seq<u8>) -> u32 {
    compose(
        if bytes.len() > 0 { bytes[0] } else { 0 },
        if bytes.len() > 1 { bytes[1] } else { 0 },
        if bytes.len() > 2 { bytes[2] } else { 0 },
        if bytes.len() > 3 { bytes[3] } else { 0 },
    )
}

/// The first `count` bytes of the little-endian image of `value`.
pub open spec fn le_bytes(value: u32, count: nat) -> Seq<u8> {
    Seq::new(count, |i: int| byte_at(value, i))
}

/// A value together with its width. The payload type bounds the value, so a
/// `Data` never holds more than its width can express.
#[derive(Clone, Copy, Debug, PartialEq, Eq, Structural)]
pub enum Data {
    Byte(u8),
    Word(u16),
    Dword(u32),
}

impl Data {
    /// The number held, zero-extended to 32 bits.
    pub open spec fn value(self) -> u32 {
        match self {
            Data::Byte(v) => v as u32,
            Data::Word(v) => v as u32,
            Data::Dword(v) => v,
        }
    }

    /// The width tag.
    pub open spec fn spec_width(&self) -> Width {
        match self {
            Data::Byte(_) => Width::Byte,
            Data::Word(_) => Width::Word,
            Data::Dword(_) => Width::Dword,
        }
    }

    /// The value of width `width` that keeps the low bytes of `value` and
    /// drops the rest.
    pub open spec fn fitted(width: Width, value: u32) -> Data {
        match width {
            Width::Byte => Data::Byte((value % 0x100) as u8),
            Width::Word => Data::Word((value % 0x1_0000) as u16),
            Width::Dword => Data::Dword(value),
        }
    }

    /// The little-endian image of the value, as many bytes as the width has.
    pub open spec fn image(self) -> Seq<u8> {
        le_bytes(self.value(), self.spec_width().bytes())
    }

    /// Builds a value of the given width from a 32-bit number, truncating to
    /// the low bytes where the number does not fit.
    pub fn new(width: Width, value: u32) -> (data: Data)
        ensures
            data == Data::fitted(width, value),
    {
        match width {
            Width::Byte => Data::Byte((value % 0x100) as u8),
            Width::Word => Data::Word((value % 0x1_0000) as u16),
            Width::Dword => Data::Dword(value),
        }
    }

    /// The width tag.
    #[verifier::when_used_as_spec(spec_width)]
    pub fn width(&self) -> (width: Width)
        ensures
            width == self.spec_width(),
    {
        match self {
            Data::Byte(_) => Width::Byte,
            Data::Word(_) => Width::Word,
            Data::Dword(_) => Width::Dword,
        }
    }

    /// The value, zero-extended to 32 bits.
    pub fn get_value(&self) -> (value: u32)
        ensures
            value == self.value(),
    {
        match self {
            Data::Byte(v) => *v as u32,
            Data::Word(v) => *v as u32,
            Data::Dword(v) => *v,
        }
    }

    /// Replaces the value, keeping the width: the 32-bit `value` is cut to
    /// the low bytes that the width holds. Returns the value now stored and
    /// the remark owed: a width below 32 bits is a cut and is reported with
    /// the bits it lost.
    pub fn set_value(&mut self, value: u32) -> (stored: (Data, Option<Diagnostic>))
        ensures
            *final(self) == Data::fitted(old(self).spec_width(), value),
            stored.0 == *final(self),
            stored.1 == conversion_note(Width::Dword, old(self).spec_width(), value),
    {
        let stored = Data::Dword(value).convert(self.width());
        *self = stored.0;
        stored
    }

    /// The value carried over to another width: cut to the low bytes where
    /// the target is narrower, zero-extended where it is wider. The second
    /// part is the remark owed: a cut is reported with the bits it lost, an
    /// extension is reported too, equal widths are silent.
    pub fn convert(&self, target: Width) -> (converted: (Data, Option<Diagnostic>))
        ensures
            converted.0 == Data::fitted(target, self.value()),
            converted.1 == conversion_note(self.spec_width(), target, self.value()),
    {
        let value = self.get_value();
        let source = self.width();
        let note = if source.byte_count() > target.byte_count() {
            let lost: u32 = match target {
                Width::Byte => value / 0x100,
                Width::Word => value / 0x1_0000,
                Width::Dword => 0,
            };
            Some(Diagnostic::Truncated { lost })
        } else if source.byte_count() < target.byte_count() {
            Some(Diagnostic::ZeroExtended)
        } else {
            None
        };
        (Data::new(target, value), note)
    }

    /// The little-endian bytes of the value, as many as the width has.
    pub fn to_le_bytes(&self) -> (bytes: Vec<u8>)
        ensures
            bytes@ == self.image(),
    {
        let value = self.get_value();
        let mut bytes: Vec<u8> = Vec::new();
        bytes.push((value % 0x100) as u8);
        match self {
            Data::Byte(_) => {},
            Data::Word(_) => {
                bytes.push(((value / 0x100) % 0x100) as u8);
            },
            Data::Dword(_) => {
                bytes.push(((value / 0x100) % 0x100) as u8);
                bytes.push(((value / 0x1_0000) % 0x100) as u8);
                bytes.push(((value / 0x100_0000) % 0x100) as u8);
            },
        }
        assert(bytes@ =~= self.image());
        bytes
    }

    /// Reads a value of the given width from the front of `bytes`; bytes that
    /// are missing count as zero, bytes beyond the width are ignored.
    pub fn from_le_bytes(width: Width, bytes: &Vec<u8>) -> (data: Data)
        ensures
            data == Data::fitted(width, le_value(bytes@)),
    {
        let b0: u32 = if bytes.len() > 0 { bytes[0] as u32 } else { 0 };
        let b1: u32 = if bytes.len() > 1 { bytes[1] as u32 } else { 0 };
        let b2: u32 = if bytes.len() > 2 { bytes[2] as u32 } else { 0 };
        let b3: u32 = if bytes.len() > 3 { bytes[3] as u32 } else { 0 };
        Data::new(width, b0 + 0x100 * b1 + 0x1_0000 * b2 + 0x100_0000 * b3)
    }
}

/// A remark on an operation that completed: never an error.
#[derive(Clone, Copy, Debug, PartialEq, Eq, Structural)]
pub enum Diagnostic {
    /// A value wider than its destination was cut to the destination's
    /// width; `lost` holds the bits above that width, shifted down.
    Truncated { lost: u32 },
    /// A value narrower than its destination was stored with its upper
    /// bytes zero.
    ZeroExtended,
    /// A register was moved into itself; nothing changed.
    SelfMove,
}

/// The remark owed when a value of width `source` and number `value` lands in
/// a destination of width `target` that is written in full.
pub open spec fn conversion_note(source: Width, target: Width, value: u32) -> Option<Diagnostic> {
    if source.bytes() > target.bytes() {
        Some(Diagnostic::Truncated { lost: (value as int / target.modulus()) as u32 })
    } else if source.bytes() < target.bytes() {
        Some(Diagnostic::ZeroExtended)
    } else {
        None
    }
}

/// Reading back the image of a value gives the value.
pub proof fn lemma_image_round_trip(data: Data)
    ensures
        data.image().len() == data.spec_width().bytes(),
        le_value(data.image()) == data.value(),
        Data::fitted(data.spec_width(), le_value(data.image())) == data,
{
    let v = data.value();
    assert(v % 0x100 + 0x100 * ((v / 0x100) % 0x100) + 0x1_0000 * ((v / 0x1_0000) % 0x100)
        + 0x100_0000 * ((v / 0x100_0000) % 0x100) == v) by (bit_vector);
    assert(v < 0x1_0000 ==> v % 0x100 + 0x100 * ((v / 0x100) % 0x100) == v) by (bit_vector);
}

/// Fitting a number to a width keeps its low bytes: the image of the fitted
/// value is the front of the number's own image, and its value is the number
/// modulo the width's range.
pub proof fn lemma_fitted_image(width: Width, value: u32)
    ensures
        Data::fitted(width, value).image() == le_bytes(value, width.bytes()),
        Data::fitted(width, value).value() == (value as int) % width.modulus(),
        Data::fitted(width, value).spec_width() == width,
{
    assert((value % 0x100) % 0x100 == value % 0x100) by (bit_vector);
    assert((value % 0x1_0000) % 0x100 == value % 0x100) by (bit_vector);
    assert(((value % 0x1_0000) / 0x100) % 0x100 == (value / 0x100) % 0x100) by (bit_vector);
    assert(Data::fitted(width, value).image() =~= le_bytes(value, width.bytes()));
}

} // verus!
