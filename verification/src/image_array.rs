//! Image arrays and the element types in which their pixels travel.

use vstd::prelude::*;

verus! {

/// Rank of an image array.
#[derive(Debug, PartialEq, Eq, Clone, Copy, Structural)]
pub enum ImageArrayRank {
    /// 2D
    Rank2,
    /// 3D
    Rank3,
}

impl ImageArrayRank {
    /// The number that stands for this rank on the wire.
    pub open spec fn spec_value(self) -> i32 {
        match self {
            ImageArrayRank::Rank2 => 2,
            ImageArrayRank::Rank3 => 3,
        }
    }

    /// The rank that `number` stands for, if any.
    pub open spec fn spec_from_primitive(number: i32) -> Option<Self> {
        if number == 2 {
            Some(ImageArrayRank::Rank2)
        } else if number == 3 {
            Some(ImageArrayRank::Rank3)
        } else {
            None
        }
    }

    /// The number that stands for this rank on the wire; reading it back gives the rank
    /// again.
    pub fn into_primitive(self) -> (r: i32)
        ensures
            r == self.spec_value(),
            Self::spec_from_primitive(r) == Some(self),
    {
        match self {
            ImageArrayRank::Rank2 => 2,
            ImageArrayRank::Rank3 => 3,
        }
    }

    /// The rank that `number` stands for, if any.
    pub fn try_from_primitive(number: i32) -> (r: Option<Self>)
        ensures
            r == Self::spec_from_primitive(number),
    {
        if number == 2 {
            Some(ImageArrayRank::Rank2)
        } else if number == 3 {
            Some(ImageArrayRank::Rank3)
        } else {
            None
        }
    }
}

/// The integer type in which the pixels of an image travel over the wire.
#[derive(Debug, PartialEq, Eq, Clone, Copy, Structural)]
pub enum TransmissionElementType {
    /// 16-bit signed integers.
    I16,
    /// 32-bit signed integers.
    I32,
    /// 8-bit unsigned integers.
    U8,
    /// 16-bit unsigned integers.
    U16,
}

/// The only supported image element type number (32-bit signed integers).
pub const IMAGE_ELEMENT_TYPE_I32: i32 = 2;

impl TransmissionElementType {
    /// The number that stands for this element type on the wire.
    pub open spec fn spec_value(self) -> i32 {
        match self {
            TransmissionElementType::I16 => 1,
            TransmissionElementType::I32 => 2,
            TransmissionElementType::U8 => 6,
            TransmissionElementType::U16 => 8,
        }
    }

    /// Size in bytes of one element.
    pub open spec fn spec_size(self) -> nat {
        match self {
            TransmissionElementType::I16 => 2,
            TransmissionElementType::I32 => 4,
            TransmissionElementType::U8 => 1,
            TransmissionElementType::U16 => 2,
        }
    }

    /// Whether `v` is a value of this element type.
    pub open spec fn fits(self, v: i32) -> bool {
        match self {
            TransmissionElementType::I16 => -32768 <= v && v <= 32767,
            TransmissionElementType::I32 => true,
            TransmissionElementType::U8 => 0 <= v && v <= 255,
            TransmissionElementType::U16 => 0 <= v && v <= 65535,
        }
    }

    /// The number that stands for this element type on the wire.
    pub fn into_primitive(self) -> (r: i32)
        ensures
            r == self.spec_value(),
    {
        match self {
            TransmissionElementType::I16 => 1,
            TransmissionElementType::I32 => 2,
            TransmissionElementType::U8 => 6,
            TransmissionElementType::U16 => 8,
        }
    }

    /// The element type that `number` stands for, if any.
    pub fn try_from_primitive(number: i32) -> (r: Option<Self>)
        ensures
            r matches Some(t) ==> t.spec_value() == number,
            r is None ==> number != 1 && number != 2 && number != 6 && number != 8,
    {
        if number == 1 {
            Some(TransmissionElementType::I16)
        } else if number == 2 {
            Some(TransmissionElementType::I32)
        } else if number == 6 {
            Some(TransmissionElementType::U8)
        } else if number == 8 {
            Some(TransmissionElementType::U16)
        } else {
            None
        }
    }

    /// Size in bytes of one element.
    pub fn size(self) -> (r: usize)
        ensures
            r == self.spec_size(),
    {
        match self {
            TransmissionElementType::I16 => 2,
            TransmissionElementType::I32 => 4,
            TransmissionElementType::U8 => 1,
            TransmissionElementType::U16 => 2,
        }
    }
}

/// A 16-bit two's complement reading of `u` (`0 <= u < 65536`).
pub open spec fn signed16(u: int) -> int {
    if u >= 32768 {
        u - 65536
    } else {
        u
    }
}

/// A 32-bit two's complement reading of `u` (`0 <= u < 2^32`).
pub open spec fn signed32(u: int) -> int {
    if u >= 0x8000_0000 {
        u - 0x1_0000_0000
    } else {
        u
    }
}

/// The unsigned 32-bit number held little-endian in the four bytes `c[at..at + 4]`.
pub open spec fn le_u32_at(c: Seq<u8>, at: int) -> int {
    c[at] + 256 * c[at + 1] + 65536 * c[at + 2] + 16777216 * c[at + 3]
}

/// The value of one element from its little-endian bytes `c`, widened to `i32`.
pub open spec fn element_value(ty: TransmissionElementType, c: Seq<u8>) -> i32 {
    match ty {
        TransmissionElementType::U8 => c[0] as i32,
        TransmissionElementType::U16 => (c[0] + 256 * c[1]) as i32,
        TransmissionElementType::I16 => signed16(c[0] + 256 * c[1]) as i32,
        TransmissionElementType::I32 => signed32(le_u32_at(c, 0)) as i32,
    }
}

/// The elements held little-endian in `bytes`, widened to `i32`, or `None` when a
/// partial element would be left over at the end.
pub open spec fn decode_elements(ty: TransmissionElementType, bytes: Seq<u8>) -> Option<Seq<i32>> {
    let s = ty.spec_size() as int;
    let len = bytes.len() as int;
    if len % s == 0 {
        Some(
            Seq::new(
                (len / s) as nat,
                |i: int| element_value(ty, bytes.subrange(i * s, i * s + s)),
            ),
        )
    } else {
        None
    }
}

/// Error for a byte buffer whose length is not a whole number of elements.
#[derive(Debug, PartialEq, Eq, Clone, Copy, Structural)]
pub enum CastError {
    /// A partial element would be left over at the end of the buffer.
    OutputSliceWouldHaveSlop,
}

fn read_element(ty: TransmissionElementType, data: &[u8], at: usize) -> (r: i32)
    requires
        at + ty.spec_size() <= data@.len(),
    ensures
        r == element_value(ty, data@.subrange(at as int, at + ty.spec_size())),
{
    let ghost c = data@.subrange(at as int, at + ty.spec_size());
    match ty {
        TransmissionElementType::U8 => data[at] as i32,
        TransmissionElementType::U16 => data[at] as i32 + 256 * (data[at + 1] as i32),
        TransmissionElementType::I16 => {
            let u: i32 = data[at] as i32 + 256 * (data[at + 1] as i32);
            if u >= 32768 {
                u - 65536
            } else {
                u
            }
        },
        TransmissionElementType::I32 => {
            let u: u32 = data[at] as u32 + 256 * (data[at + 1] as u32) + 65536 * (data[at + 2] as u32)
                + 16777216 * (data[at + 3] as u32);
            assert(u == le_u32_at(c, 0));
            if u >= 0x8000_0000 {
                let v: i32 = (u - 0x8000_0000) as i32;
                v - 0x4000_0000 - 0x4000_0000
            } else {
                u as i32
            }
        },
    }
}

/// Decodes the little-endian elements of type `ty` in `data`, widening each to `i32`.
///
/// Fails when a partial element would be left over at the end; any alignment of `data`
/// is accepted.
pub fn decode_elements_exec(ty: TransmissionElementType, data: &[u8]) -> (r: Result<Vec<i32>, CastError>)
    ensures
        r matches Ok(v) ==> decode_elements(ty, data@) == Some(v@),
        r is Err <==> decode_elements(ty, data@) is None,
{
    let s = ty.size();
    let len = data.len();
    if len % s != 0 {
        return Err(CastError::OutputSliceWouldHaveSlop);
    }
    let n = len / s;
    assert(n * s == len) by (nonlinear_arith)
        requires
            n == len / s,
            len % s == 0,
            s > 0,
    ;
    let mut out: Vec<i32> = Vec::with_capacity(n);
    let mut i: usize = 0;
    while i < n
        invariant
            i <= n,
            n * s == len,
            len == data@.len(),
            s == ty.spec_size(),
            out@.len() == i,
            forall|j: int|
                0 <= j < i ==> #[trigger] out@[j] == element_value(
                    ty,
                    data@.subrange(j * s, j * s + s),
                ),
        decreases n - i,
    {
        assert(i * s + s <= n * s) by (nonlinear_arith)
            requires
                i < n,
        ;
        let at = i * s;
        let v = read_element(ty, data, at);
        out.push(v);
        i = i + 1;
    }
    proof {
        let ghost spec_v = Seq::new(
            (len as int / s as int) as nat,
            |k: int| element_value(ty, data@.subrange(k * s as int, k * s + s)),
        );
        assert(out@ =~= spec_v);
    }
    Ok(out)
}

/// A pixel type that images can be built from and that can travel over the wire.
pub trait AsTransmissionElementType: Sized + Copy {
    /// The value of `self` widened to `i32`.
    spec fn spec_widened(self) -> i32;

    /// The wire element type of `Self`.
    spec fn spec_element_type() -> TransmissionElementType;

    /// The wire element type of `Self`.
    fn element_type() -> (r: TransmissionElementType)
        ensures
            r == Self::spec_element_type(),
    ;

    /// The value of `self` widened to `i32`.
    fn widen(self) -> (r: i32)
        ensures
            r == self.spec_widened(),
            Self::spec_element_type().fits(r),
    ;

    /// Reads `data` as little-endian elements of `Self`, widening each to `i32`; the data
    /// may start at any alignment, and fails when a partial element is left over.
    fn widen_unaligned(data: &[u8]) -> (r: Result<Vec<i32>, CastError>)
        ensures
            r matches Ok(v) ==> decode_elements(Self::spec_element_type(), data@) == Some(v@),
            r is Err <==> decode_elements(Self::spec_element_type(), data@) is None,
    {
        decode_elements_exec(Self::element_type(), data)
    }
}

impl AsTransmissionElementType for i16 {
    open spec fn spec_widened(self) -> i32 {
        self as i32
    }

    open spec fn spec_element_type() -> TransmissionElementType {
        TransmissionElementType::I16
    }

    fn element_type() -> (r: TransmissionElementType) {
        TransmissionElementType::I16
    }

    fn widen(self) -> (r: i32) {
        self as i32
    }
}

impl AsTransmissionElementType for i32 {
    open spec fn spec_widened(self) -> i32 {
        self
    }

    open spec fn spec_element_type() -> TransmissionElementType {
        TransmissionElementType::I32
    }

    fn element_type() -> (r: TransmissionElementType) {
        TransmissionElementType::I32
    }

    fn widen(self) -> (r: i32) {
        self
    }
}

impl AsTransmissionElementType for u8 {
    open spec fn spec_widened(self) -> i32 {
        self as i32
    }

    open spec fn spec_element_type() -> TransmissionElementType {
        TransmissionElementType::U8
    }

    fn element_type() -> (r: TransmissionElementType) {
        TransmissionElementType::U8
    }

    fn widen(self) -> (r: i32) {
        self as i32
    }
}

impl AsTransmissionElementType for u16 {
    open spec fn spec_widened(self) -> i32 {
        self as i32
    }

    open spec fn spec_element_type() -> TransmissionElementType {
        TransmissionElementType::U16
    }

    fn element_type() -> (r: TransmissionElementType) {
        TransmissionElementType::U16
    }

    fn widen(self) -> (r: i32) {
        self as i32
    }
}

/// The mathematical content of an image: its three dimensions, its pixels in row-major
/// order (the last dimension varies fastest) and the element type its pixels travel in.
pub struct ImageArrayModel {
    /// Width, height and number of colour planes.
    pub dim: (nat, nat, nat),
    /// Pixels in row-major order.
    pub data: Seq<i32>,
    /// Element type the pixels travel in.
    pub ty: TransmissionElementType,
}

impl ImageArrayModel {
    /// A well-formed image: as many pixels as its dimensions describe, the product of its
    /// non-zero dimensions within `isize`, and every pixel a value of its element type.
    pub open spec fn wf(self) -> bool {
        &&& self.data.len() == self.dim.0 * self.dim.1 * self.dim.2
        &&& nonzero_or_one(self.dim.0) * nonzero_or_one(self.dim.1) * nonzero_or_one(self.dim.2)
            <= isize::MAX
        &&& forall|i: int| 0 <= i < self.data.len() ==> #[trigger] self.ty.fits(self.data[i])
    }

    /// The rank the image reports: 2D when it has a single colour plane.
    pub open spec fn rank(self) -> ImageArrayRank {
        if self.dim.2 == 1 {
            ImageArrayRank::Rank2
        } else {
            ImageArrayRank::Rank3
        }
    }
}

/// A dimension counted as `1` when it is zero.
pub open spec fn nonzero_or_one(d: nat) -> nat {
    if d == 0 {
        1
    } else {
        d
    }
}

/// Whether an array of dimensions `dim` can be made of `len` elements: the product of its
/// non-zero dimensions fits in `isize`, and its size is `len`.
pub open spec fn shape_accepts(dim: (nat, nat, nat), len: nat) -> bool {
    &&& nonzero_or_one(dim.0) * nonzero_or_one(dim.1) * nonzero_or_one(dim.2) <= isize::MAX
    &&& dim.0 * dim.1 * dim.2 == len
}

/// Image array.
///
/// Image is represented as a 3D array regardless of its actual rank.
/// If the image is a 2D image, the third dimension will have length 1.
///
/// You can retrieve rank as an enum via the [`ImageArray::rank`] method.
#[derive(Debug)]
pub struct ImageArray {
    dim: (usize, usize, usize),
    data: Vec<i32>,
    transmission_element_type: TransmissionElementType,
}

impl View for ImageArray {
    type V = ImageArrayModel;

    closed spec fn view(&self) -> ImageArrayModel {
        ImageArrayModel {
            dim: (self.dim.0 as nat, self.dim.1 as nat, self.dim.2 as nat),
            data: self.data@,
            ty: self.transmission_element_type,
        }
    }
}

impl ImageArray {
    #[verifier::type_invariant]
    closed spec fn inv(self) -> bool {
        self@.wf()
    }

    /// Builds an image of dimensions `dim` from its pixels in row-major order.
    pub fn from_elements<T: AsTransmissionElementType>(
        dim: (usize, usize, usize),
        elements: &[T],
    ) -> (r: Self)
        requires
            shape_accepts((dim.0 as nat, dim.1 as nat, dim.2 as nat), elements@.len()),
        ensures
            r@.dim == (dim.0 as nat, dim.1 as nat, dim.2 as nat),
            r@.ty == T::spec_element_type(),
            r@.data.len() == elements@.len(),
            forall|i: int| 0 <= i < elements@.len() ==> r@.data[i] == #[trigger] elements@[i].spec_widened(),
    {
        let mut data: Vec<i32> = Vec::with_capacity(elements.len());
        let mut i: usize = 0;
        while i < elements.len()
            invariant
                i <= elements@.len(),
                data@.len() == i,
                forall|j: int| 0 <= j < i ==> data@[j] == #[trigger] elements@[j].spec_widened(),
                forall|j: int| 0 <= j < i ==> T::spec_element_type().fits(#[trigger] data@[j]),
            decreases elements@.len() - i,
        {
            let v = elements[i].widen();
            data.push(v);
            i = i + 1;
        }
        ImageArray { dim, data, transmission_element_type: T::element_type() }
    }

    /// Builds a 2D image of dimensions `dim` (a single colour plane) from its pixels in
    /// row-major order.
    pub fn from_elements_2d<T: AsTransmissionElementType>(dim: (usize, usize), elements: &[T]) -> (r: Self)
        requires
            shape_accepts((dim.0 as nat, dim.1 as nat, 1), elements@.len()),
        ensures
            r@.dim == (dim.0 as nat, dim.1 as nat, 1nat),
            r@.ty == T::spec_element_type(),
            r@.data.len() == elements@.len(),
            forall|i: int| 0 <= i < elements@.len() ==> r@.data[i] == #[trigger] elements@[i].spec_widened(),
    {
        assert(dim.0 * dim.1 * 1 == dim.0 * dim.1) by (nonlinear_arith);
        Self::from_elements((dim.0, dim.1, 1), elements)
    }

    /// Builds an image of 32-bit pixels, taking ownership of them, when the dimensions
    /// describe exactly that many pixels (see [`shape_accepts`]).
    pub fn from_shape_vec(dim: (usize, usize, usize), data: Vec<i32>) -> (r: Option<Self>)
        ensures
            r is Some <==> shape_accepts((dim.0 as nat, dim.1 as nat, dim.2 as nat), data@.len()),
            r matches Some(img) ==> img@ == (ImageArrayModel {
                dim: (dim.0 as nat, dim.1 as nat, dim.2 as nat),
                data: data@,
                ty: TransmissionElementType::I32,
            }),
    {
        let (d0, d1, d2) = dim;
        let n0: usize = if d0 == 0 { 1 } else { d0 };
        let n1: usize = if d1 == 0 { 1 } else { d1 };
        let n2: usize = if d2 == 0 { 1 } else { d2 };
        let nonzero = match n0.checked_mul(n1) {
            Some(p) => p.checked_mul(n2),
            None => None,
        };
        proof {
            if n0 * n1 > usize::MAX {
                assert(n0 * n1 * n2 > usize::MAX) by (nonlinear_arith)
                    requires
                        n0 * n1 > usize::MAX,
                        n2 >= 1,
                ;
            }
        }
        match nonzero {
            Some(nz) if nz <= isize::MAX as usize => {
                assert(d0 * d1 <= n0 * n1 && d0 * d1 * d2 <= n0 * n1 * n2) by (nonlinear_arith)
                    requires
                        n0 >= 1,
                        n1 >= 1,
                        n2 >= 1,
                        d0 <= n0,
                        d1 <= n1,
                        d2 <= n2,
                ;
                let total = d0 * d1 * d2;
                if total == data.len() {
                    Some(ImageArray { dim, data, transmission_element_type: TransmissionElementType::I32 })
                } else {
                    None
                }
            },
            _ => None,
        }
    }

    /// Retrieve actual rank of the image.
    pub fn rank(&self) -> (r: ImageArrayRank)
        ensures
            r == self@.rank(),
    {
        if self.dim.2 == 1 {
            ImageArrayRank::Rank2
        } else {
            ImageArrayRank::Rank3
        }
    }

    /// The dimensions of the image.
    pub fn dim(&self) -> (r: (usize, usize, usize))
        ensures
            (r.0 as nat, r.1 as nat, r.2 as nat) == self@.dim,
            self@.wf(),
    {
        proof {
            use_type_invariant(self);
        }
        self.dim
    }

    /// The pixels of the image in row-major order.
    pub fn as_slice(&self) -> (r: &[i32])
        ensures
            r@ == self@.data,
    {
        self.data.as_slice()
    }

    /// The element type the pixels of this image travel in.
    pub fn transmission_element_type(&self) -> (r: TransmissionElementType)
        ensures
            r == self@.ty,
    {
        self.transmission_element_type
    }

    /// The pixel at position `(x, y, plane)`, if the position lies within the image.
    pub fn get(&self, x: usize, y: usize, plane: usize) -> (r: Option<i32>)
        ensures
            r is Some <==> (x < self@.dim.0 && y < self@.dim.1 && plane < self@.dim.2),
            r matches Some(v) ==> v == self@.data[(x * self@.dim.1 + y) * self@.dim.2 + plane],
    {
        proof {
            use_type_invariant(self);
        }
        if x < self.dim.0 && y < self.dim.1 && plane < self.dim.2 {
            let (d0, d1, d2) = self.dim;
            assert(x * d1 + y < d0 * d1 && (x * d1 + y) * d2 + plane < d0 * d1 * d2 && x * d1 <= x * d1 + y
                && x * d1 + y <= (x * d1 + y) * d2) by (nonlinear_arith)
                requires
                    x < d0,
                    y < d1,
                    plane < d2,
            ;
            let n = self.data.len();
            assert(n == d0 * d1 * d2);
            let row = x * d1 + y;
            assert(row * d2 + plane < d0 * d1 * d2);
            let idx = row * d2 + plane;
            Some(self.data[idx])
        } else {
            None
        }
    }
}

/// The wire numbers of `ImageArrayRank` are fixed by the Alpaca protocol: `Rank2` is 2,
/// `Rank3` is 3; no other number stands for a value, and each number is read back as the
/// value it stands for.
pub proof fn lemma_image_array_rank_wire_numbers(number: i32)
    ensures
        ImageArrayRank::Rank2.spec_value() == 2i32,
        ImageArrayRank::Rank3.spec_value() == 3i32,
        ImageArrayRank::spec_from_primitive(2i32) == Some(ImageArrayRank::Rank2),
        ImageArrayRank::spec_from_primitive(3i32) == Some(ImageArrayRank::Rank3),
        (number != 2i32 && number != 3i32) ==> ImageArrayRank::spec_from_primitive(number) is None,
{
}

/// The transmission element types of the ImageBytes format and their numbers, as the
/// format fixes them: 16-bit signed integers are 1, 32-bit signed integers 2, 8-bit unsigned
/// integers 6 and 16-bit unsigned integers 8. Each type's elements take as many bytes and
/// hold exactly the values that its width and signedness give.
pub proof fn lemma_transmission_element_type_numbers(v: i32)
    ensures
        TransmissionElementType::I16.spec_value() == 1,
        TransmissionElementType::I32.spec_value() == 2,
        TransmissionElementType::U8.spec_value() == 6,
        TransmissionElementType::U16.spec_value() == 8,
        TransmissionElementType::I16.spec_size() == 2,
        TransmissionElementType::I32.spec_size() == 4,
        TransmissionElementType::U8.spec_size() == 1,
        TransmissionElementType::U16.spec_size() == 2,
        TransmissionElementType::I16.fits(v) <==> -0x8000 <= v < 0x8000,
        TransmissionElementType::I32.fits(v),
        TransmissionElementType::U8.fits(v) <==> 0 <= v < 0x100,
        TransmissionElementType::U16.fits(v) <==> 0 <= v < 0x1_0000,
{
}

} // verus!
