//! The `application/imagebytes` transport format for image arrays.
//!
//! A payload is a 44-byte metadata header of eleven little-endian 32-bit fields followed,
//! from `data_start` on, either by the pixels (little-endian, in the transmission element
//! type) or, for an error, by the UTF-8 error message.

use vstd::prelude::*;
use vstd::utf8::{decode_utf8, encode_utf8, valid_utf8};
use crate::errors::{in_valid_range, wire_error, ASCOMError, ASCOMErrorCode};
use crate::image_array::{
    decode_elements, decode_elements_exec, element_value, le_u32_at, shape_accepts, signed16,
    signed32, ImageArray, ImageArrayModel, ImageArrayRank, TransmissionElementType,
    IMAGE_ELEMENT_TYPE_I32,
};
use crate::text::utf8_to_string;

verus! {

/// Size in bytes of the metadata header.
pub const METADATA_SIZE: usize = 44;

/// The metadata header of an `ImageBytes` payload.
#[derive(Debug, Clone, Copy, PartialEq, Eq, Structural)]
pub struct ImageBytesMetadata {
    /// Format version; only `1` is supported.
    pub metadata_version: i32,
    /// `0` for an image, otherwise the error number.
    pub error_number: i32,
    /// Client transaction ID, `0` when absent.
    pub client_transaction_id: u32,
    /// Server transaction ID, `0` when absent.
    pub server_transaction_id: u32,
    /// Offset of the pixel data or error message.
    pub data_start: i32,
    /// Element type of the image (`2` for 32-bit integers).
    pub image_element_type: i32,
    /// Element type the pixels travel in.
    pub transmission_element_type: i32,
    /// `2` or `3`.
    pub rank: i32,
    /// First dimension.
    pub dimension_1: i32,
    /// Second dimension.
    pub dimension_2: i32,
    /// Third dimension; `0` for a 2D image.
    pub dimension_3: i32,
}

/// Transaction IDs carried by a response.
#[derive(Debug, Clone, Copy, PartialEq, Eq, Structural)]
pub struct ResponseTransaction {
    /// The client transaction ID echoed by the server, never `Some(0)`.
    pub client_transaction_id: Option<u32>,
    /// The server's own transaction ID, never `Some(0)`.
    pub server_transaction_id: Option<u32>,
}

/// A response together with the transaction IDs it carried.
#[derive(Debug)]
pub struct ResponseWithTransaction<T> {
    /// Transaction IDs.
    pub transaction: ResponseTransaction,
    /// The response itself.
    pub response: T,
}

/// Why an `ImageBytes` payload could not be read.
#[derive(Debug, Clone, Copy, PartialEq, Eq, Structural)]
pub enum ImageBytesError {
    /// Fewer bytes than the metadata header needs.
    NotEnoughBytes,
    /// A metadata version other than `1`.
    UnsupportedMetadataVersion(i32),
    /// A negative data start offset.
    NegativeDataStart(i32),
    /// A data start offset inside the metadata header.
    DataStartWithinMetadata(i32),
    /// A data start offset beyond the end of the payload.
    DataStartOutOfBounds(i32),
    /// An error message that is not valid UTF-8.
    InvalidUtf8,
    /// An image element type other than 32-bit integers.
    UnsupportedImageElementType(i32),
    /// An unknown transmission element type.
    UnsupportedTransmissionElementType(i32),
    /// Pixel data that is not a whole number of elements.
    TrailingBytes,
    /// A negative dimension.
    NegativeDimension(i32),
    /// A rank other than `2` or `3`.
    UnsupportedRank(i32),
    /// A non-zero third dimension for a 2D image.
    NonZeroDimension3(i32),
    /// Dimensions that do not describe the number of pixels received.
    ShapeMismatch,
}

/// The number stored little-endian in the four bytes `b[at..at + 4]`, read as a signed
/// 32-bit integer.
pub open spec fn le_i32_at(b: Seq<u8>, at: int) -> i32 {
    signed32(le_u32_at(b, at)) as i32
}

/// The metadata header held by the first 44 bytes of `b`.
pub open spec fn metadata_of(b: Seq<u8>) -> ImageBytesMetadata {
    ImageBytesMetadata {
        metadata_version: le_i32_at(b, 0),
        error_number: le_i32_at(b, 4),
        client_transaction_id: le_u32_at(b, 8) as u32,
        server_transaction_id: le_u32_at(b, 12) as u32,
        data_start: le_i32_at(b, 16),
        image_element_type: le_i32_at(b, 20),
        transmission_element_type: le_i32_at(b, 24),
        rank: le_i32_at(b, 28),
        dimension_1: le_i32_at(b, 32),
        dimension_2: le_i32_at(b, 36),
        dimension_3: le_i32_at(b, 40),
    }
}

/// A transaction ID field: `0` stands for no ID.
pub open spec fn optional_id(raw: u32) -> Option<u32> {
    if raw == 0 {
        None
    } else {
        Some(raw)
    }
}

/// The raw field for an optional transaction ID.
pub open spec fn raw_id(id: Option<u32>) -> u32 {
    match id {
        Some(v) => v,
        None => 0,
    }
}

/// The element type that a transmission element type number stands for.
pub open spec fn element_type_of(number: i32) -> Option<TransmissionElementType> {
    if number == 1 {
        Some(TransmissionElementType::I16)
    } else if number == 2 {
        Some(TransmissionElementType::I32)
    } else if number == 6 {
        Some(TransmissionElementType::U8)
    } else if number == 8 {
        Some(TransmissionElementType::U16)
    } else {
        None
    }
}

/// The image or error an `ImageBytes` payload holds, with the transaction IDs of its
/// header, or why it cannot be read.
pub open spec fn spec_parse_image_bytes(b: Seq<u8>) -> Result<
    (ResponseTransaction, Result<ImageArrayModel, (u16, Seq<char>)>),
    ImageBytesError,
> {
    if b.len() < METADATA_SIZE {
        Err(ImageBytesError::NotEnoughBytes)
    } else {
        let m = metadata_of(b);
        if m.metadata_version != 1 {
            Err(ImageBytesError::UnsupportedMetadataVersion(m.metadata_version))
        } else if m.data_start < 0 {
            Err(ImageBytesError::NegativeDataStart(m.data_start))
        } else if m.data_start < METADATA_SIZE {
            Err(ImageBytesError::DataStartWithinMetadata(m.data_start))
        } else if m.data_start > b.len() {
            Err(ImageBytesError::DataStartOutOfBounds(m.data_start))
        } else {
            let raw = b.subrange(m.data_start as int, b.len() as int);
            let transaction = ResponseTransaction {
                client_transaction_id: optional_id(m.client_transaction_id),
                server_transaction_id: optional_id(m.server_transaction_id),
            };
            if m.error_number == 0 {
                spec_parse_image(m, raw, transaction)
            } else if !valid_utf8(raw) {
                Err(ImageBytesError::InvalidUtf8)
            } else {
                Ok((transaction, Err(wire_error(m.error_number, decode_utf8(raw)))))
            }
        }
    }
}

/// The image held by the pixel bytes `raw` under the header `m`.
pub open spec fn spec_parse_image(
    m: ImageBytesMetadata,
    raw: Seq<u8>,
    transaction: ResponseTransaction,
) -> Result<(ResponseTransaction, Result<ImageArrayModel, (u16, Seq<char>)>), ImageBytesError> {
    if m.image_element_type != IMAGE_ELEMENT_TYPE_I32 {
        Err(ImageBytesError::UnsupportedImageElementType(m.image_element_type))
    } else {
        match element_type_of(m.transmission_element_type) {
            None => Err(ImageBytesError::UnsupportedTransmissionElementType(m.transmission_element_type)),
            Some(ty) => match decode_elements(ty, raw) {
                None => Err(ImageBytesError::TrailingBytes),
                Some(data) => {
                    if m.dimension_1 < 0 {
                        Err(ImageBytesError::NegativeDimension(m.dimension_1))
                    } else if m.dimension_2 < 0 {
                        Err(ImageBytesError::NegativeDimension(m.dimension_2))
                    } else if m.rank != 2 && m.rank != 3 {
                        Err(ImageBytesError::UnsupportedRank(m.rank))
                    } else if m.rank == 2 && m.dimension_3 != 0 {
                        Err(ImageBytesError::NonZeroDimension3(m.dimension_3))
                    } else if m.rank == 3 && m.dimension_3 < 0 {
                        Err(ImageBytesError::NegativeDimension(m.dimension_3))
                    } else {
                        let dim = (
                            m.dimension_1 as nat,
                            m.dimension_2 as nat,
                            if m.rank == 2 { 1nat } else { m.dimension_3 as nat },
                        );
                        if shape_accepts(dim, data.len()) {
                            Ok((transaction, Ok(ImageArrayModel { dim, data, ty: TransmissionElementType::I32 })))
                        } else {
                            Err(ImageBytesError::ShapeMismatch)
                        }
                    }
                },
            },
        }
    }
}

/// The content of an image or error response.
pub open spec fn response_model(r: Result<ImageArray, ASCOMError>) -> Result<ImageArrayModel, (u16, Seq<char>)> {
    match r {
        Ok(img) => Ok(img@),
        Err(e) => Err((e.code@, e.message@)),
    }
}

fn read_u32_at(b: &[u8], at: usize) -> (r: u32)
    requires
        at + 4 <= b@.len(),
    ensures
        r == le_u32_at(b@, at as int),
{
    b[at] as u32 + 256 * (b[at + 1] as u32) + 65536 * (b[at + 2] as u32) + 16777216 * (b[at + 3] as u32)
}

fn read_i32_at(b: &[u8], at: usize) -> (r: i32)
    requires
        at + 4 <= b@.len(),
    ensures
        r == le_i32_at(b@, at as int),
{
    let u = read_u32_at(b, at);
    if u >= 0x8000_0000 {
        let v: i32 = (u - 0x8000_0000) as i32;
        v - 0x4000_0000 - 0x4000_0000
    } else {
        u as i32
    }
}

/// Reads the metadata header at the start of `b`.
pub fn read_metadata(b: &[u8]) -> (r: ImageBytesMetadata)
    requires
        b@.len() >= METADATA_SIZE,
    ensures
        r == metadata_of(b@),
{
    ImageBytesMetadata {
        metadata_version: read_i32_at(b, 0),
        error_number: read_i32_at(b, 4),
        client_transaction_id: read_u32_at(b, 8),
        server_transaction_id: read_u32_at(b, 12),
        data_start: read_i32_at(b, 16),
        image_element_type: read_i32_at(b, 20),
        transmission_element_type: read_i32_at(b, 24),
        rank: read_i32_at(b, 28),
        dimension_1: read_i32_at(b, 32),
        dimension_2: read_i32_at(b, 36),
        dimension_3: read_i32_at(b, 40),
    }
}

fn optional_id_exec(raw: u32) -> (r: Option<u32>)
    ensures
        r == optional_id(raw),
{
    if raw == 0 {
        None
    } else {
        Some(raw)
    }
}

fn subslice_from(b: &[u8], start: usize) -> (r: Vec<u8>)
    requires
        start <= b@.len(),
    ensures
        r@ == b@.subrange(start as int, b@.len() as int),
{
    let mut out: Vec<u8> = Vec::new();
    let mut i = start;
    while i < b.len()
        invariant
            start <= i <= b@.len(),
            out@ == b@.subrange(start as int, i as int),
        decreases b@.len() - i,
    {
        out.push(b[i]);
        i = i + 1;
        assert(out@ =~= b@.subrange(start as int, i as int));
    }
    out
}

fn parse_image(
    m: ImageBytesMetadata,
    raw: &[u8],
    transaction: ResponseTransaction,
) -> (r: Result<ResponseWithTransaction<Result<ImageArray, ASCOMError>>, ImageBytesError>)
    ensures
        match r {
            Ok(resp) => spec_parse_image(m, raw@, transaction) == Ok::<_, ImageBytesError>(
                (resp.transaction, response_model(resp.response)),
            ),
            Err(e) => spec_parse_image(m, raw@, transaction) == Err::<
                (ResponseTransaction, Result<ImageArrayModel, (u16, Seq<char>)>),
                _,
            >(e),
        },
{
    if m.image_element_type != IMAGE_ELEMENT_TYPE_I32 {
        return Err(ImageBytesError::UnsupportedImageElementType(m.image_element_type));
    }
    let ty = match TransmissionElementType::try_from_primitive(m.transmission_element_type) {
        Some(ty) => ty,
        None => {
            return Err(ImageBytesError::UnsupportedTransmissionElementType(m.transmission_element_type));
        },
    };
    let data = match decode_elements_exec(ty, raw) {
        Ok(data) => data,
        Err(_) => {
            return Err(ImageBytesError::TrailingBytes);
        },
    };
    if m.dimension_1 < 0 {
        return Err(ImageBytesError::NegativeDimension(m.dimension_1));
    }
    if m.dimension_2 < 0 {
        return Err(ImageBytesError::NegativeDimension(m.dimension_2));
    }
    let third: usize = match ImageArrayRank::try_from_primitive(m.rank) {
        Some(ImageArrayRank::Rank2) => {
            if m.dimension_3 != 0 {
                return Err(ImageBytesError::NonZeroDimension3(m.dimension_3));
            }
            1
        },
        Some(ImageArrayRank::Rank3) => {
            if m.dimension_3 < 0 {
                return Err(ImageBytesError::NegativeDimension(m.dimension_3));
            }
            m.dimension_3 as usize
        },
        None => {
            return Err(ImageBytesError::UnsupportedRank(m.rank));
        },
    };
    let dim = (m.dimension_1 as usize, m.dimension_2 as usize, third);
    match ImageArray::from_shape_vec(dim, data) {
        Some(img) => Ok(ResponseWithTransaction { transaction, response: Ok(img) }),
        None => Err(ImageBytesError::ShapeMismatch),
    }
}

/// Reads an `application/imagebytes` payload: the image or error it holds, together with
/// the transaction IDs of its header.
///
/// The payload may start at any alignment.
pub fn parse_image_bytes(bytes: &[u8]) -> (r: Result<
    ResponseWithTransaction<Result<ImageArray, ASCOMError>>,
    ImageBytesError,
>)
    ensures
        match r {
            Ok(resp) => spec_parse_image_bytes(bytes@) == Ok::<_, ImageBytesError>(
                (resp.transaction, response_model(resp.response)),
            ),
            Err(e) => spec_parse_image_bytes(bytes@) == Err::<
                (ResponseTransaction, Result<ImageArrayModel, (u16, Seq<char>)>),
                _,
            >(e),
        },
{
    if bytes.len() < METADATA_SIZE {
        return Err(ImageBytesError::NotEnoughBytes);
    }
    let m = read_metadata(bytes);
    if m.metadata_version != 1 {
        return Err(ImageBytesError::UnsupportedMetadataVersion(m.metadata_version));
    }
    if m.data_start < 0 {
        return Err(ImageBytesError::NegativeDataStart(m.data_start));
    }
    if (m.data_start as usize) < METADATA_SIZE {
        return Err(ImageBytesError::DataStartWithinMetadata(m.data_start));
    }
    if m.data_start as usize > bytes.len() {
        return Err(ImageBytesError::DataStartOutOfBounds(m.data_start));
    }
    let raw = subslice_from(bytes, m.data_start as usize);
    let transaction = ResponseTransaction {
        client_transaction_id: optional_id_exec(m.client_transaction_id),
        server_transaction_id: optional_id_exec(m.server_transaction_id),
    };
    if m.error_number == 0 {
        return parse_image(m, raw.as_slice(), transaction);
    }
    match utf8_to_string(raw.as_slice()) {
        Some(message) => Ok(
            ResponseWithTransaction {
                transaction,
                response: Err(ASCOMError::new_with_unbounded_code(m.error_number, message.as_str())),
            },
        ),
        None => Err(ImageBytesError::InvalidUtf8),
    }
}

/// Byte `k` (`0..4`, least significant first) of the 32-bit number `u`.
pub open spec fn byte_of(u: int, k: int) -> u8 {
    if k == 0 {
        (u % 256) as u8
    } else if k == 1 {
        ((u / 256) % 256) as u8
    } else if k == 2 {
        ((u / 65536) % 256) as u8
    } else {
        ((u / 16777216) % 256) as u8
    }
}

/// The bits of `v` as an unsigned 32-bit number (two's complement).
pub open spec fn bits_of(v: i32) -> int {
    if v < 0 {
        v + 0x1_0000_0000
    } else {
        v as int
    }
}

/// The four little-endian bytes of the 32-bit number `u`.
pub open spec fn le_bytes(u: int) -> Seq<u8> {
    seq![byte_of(u, 0), byte_of(u, 1), byte_of(u, 2), byte_of(u, 3)]
}

/// The 44 bytes of a metadata header.
pub open spec fn metadata_bytes(m: ImageBytesMetadata) -> Seq<u8> {
    le_bytes(bits_of(m.metadata_version)) + le_bytes(bits_of(m.error_number)) + le_bytes(
        m.client_transaction_id as int,
    ) + le_bytes(m.server_transaction_id as int) + le_bytes(bits_of(m.data_start)) + le_bytes(
        bits_of(m.image_element_type),
    ) + le_bytes(bits_of(m.transmission_element_type)) + le_bytes(bits_of(m.rank)) + le_bytes(
        bits_of(m.dimension_1),
    ) + le_bytes(bits_of(m.dimension_2)) + le_bytes(bits_of(m.dimension_3))
}

/// The bytes one pixel `v` travels as: the low bytes of its two's complement, as many as
/// the element type is wide.
pub open spec fn element_bytes(ty: TransmissionElementType, v: i32) -> Seq<u8> {
    le_bytes(bits_of(v)).take(ty.spec_size() as int)
}

/// The pixels `data` as they travel in element type `ty`: each pixel's bytes in turn.
pub open spec fn encode_elements(ty: TransmissionElementType, data: Seq<i32>) -> Seq<u8>
    decreases data.len(),
{
    if data.len() == 0 {
        Seq::empty()
    } else {
        encode_elements(ty, data.drop_last()) + element_bytes(ty, data.last())
    }
}

/// The header sent with an image.
pub open spec fn image_metadata(img: ImageArrayModel, client: Option<u32>, server: u32) -> ImageBytesMetadata {
    ImageBytesMetadata {
        metadata_version: 1,
        error_number: 0,
        client_transaction_id: raw_id(client),
        server_transaction_id: server,
        data_start: METADATA_SIZE as i32,
        image_element_type: IMAGE_ELEMENT_TYPE_I32,
        transmission_element_type: img.ty.spec_value(),
        rank: img.rank().spec_value(),
        dimension_1: img.dim.0 as i32,
        dimension_2: img.dim.1 as i32,
        dimension_3: if img.dim.2 == 1 { 0 } else { img.dim.2 as i32 },
    }
}

/// The header sent with an error.
pub open spec fn error_metadata(code: u16, client: Option<u32>, server: u32) -> ImageBytesMetadata {
    ImageBytesMetadata {
        metadata_version: 1,
        error_number: code as i32,
        client_transaction_id: raw_id(client),
        server_transaction_id: server,
        data_start: METADATA_SIZE as i32,
        image_element_type: 0,
        transmission_element_type: 0,
        rank: 0,
        dimension_1: 0,
        dimension_2: 0,
        dimension_3: 0,
    }
}

/// The `ImageBytes` payload for an image or error response.
pub open spec fn spec_encode_image_bytes(
    response: Result<ImageArrayModel, (u16, Seq<char>)>,
    client: Option<u32>,
    server: u32,
) -> Seq<u8> {
    match response {
        Ok(img) => metadata_bytes(image_metadata(img, client, server)) + encode_elements(img.ty, img.data),
        Err((code, message)) => metadata_bytes(error_metadata(code, client, server)) + encode_utf8(message),
    }
}

fn u32_bits(v: i32) -> (r: u32)
    ensures
        r == bits_of(v),
{
    if v < 0 {
        (v as i64 + 0x1_0000_0000i64) as u32
    } else {
        v as u32
    }
}

fn push_le_bytes(out: &mut Vec<u8>, u: u32, n: usize)
    requires
        1 <= n <= 4,
    ensures
        final(out)@ == old(out)@ + le_bytes(u as int).take(n as int),
{
    let ghost start = old(out)@;
    out.push((u % 256) as u8);
    if n >= 2 {
        out.push(((u / 256) % 256) as u8);
    }
    if n >= 3 {
        out.push(((u / 65536) % 256) as u8);
    }
    if n >= 4 {
        out.push(((u / 16777216) % 256) as u8);
    }
    assert(out@ =~= start + le_bytes(u as int).take(n as int));
}

fn push_metadata(out: &mut Vec<u8>, m: &ImageBytesMetadata)
    ensures
        final(out)@ == old(out)@ + metadata_bytes(*m),
{
    let ghost start = old(out)@;
    push_le_bytes(out, u32_bits(m.metadata_version), 4);
    push_le_bytes(out, u32_bits(m.error_number), 4);
    push_le_bytes(out, m.client_transaction_id, 4);
    push_le_bytes(out, m.server_transaction_id, 4);
    push_le_bytes(out, u32_bits(m.data_start), 4);
    push_le_bytes(out, u32_bits(m.image_element_type), 4);
    push_le_bytes(out, u32_bits(m.transmission_element_type), 4);
    push_le_bytes(out, u32_bits(m.rank), 4);
    push_le_bytes(out, u32_bits(m.dimension_1), 4);
    push_le_bytes(out, u32_bits(m.dimension_2), 4);
    push_le_bytes(out, u32_bits(m.dimension_3), 4);
    assert(le_bytes(bits_of(m.metadata_version)).take(4) =~= le_bytes(bits_of(m.metadata_version)));
    assert(out@ =~= start + metadata_bytes(*m)) by {
        assert forall|u: int| #[trigger] le_bytes(u).take(4) =~= le_bytes(u) by {}
    }
}

/// Writes an image or error response as an `application/imagebytes` payload.
///
/// The dimensions of an image must each fit in `i32`, and transaction IDs are never zero.
pub fn encode_image_bytes(
    response: &Result<ImageArray, ASCOMError>,
    client_transaction_id: Option<u32>,
    server_transaction_id: u32,
) -> (r: Vec<u8>)
    requires
        response matches Ok(img) ==> img@.dim.0 <= i32::MAX && img@.dim.1 <= i32::MAX && img@.dim.2
            <= i32::MAX,
        client_transaction_id != Some(0u32),
        server_transaction_id != 0,
    ensures
        r@ == spec_encode_image_bytes(response_model(*response), client_transaction_id, server_transaction_id),
{
    let mut out: Vec<u8> = Vec::new();
    let client = match client_transaction_id {
        Some(id) => id,
        None => 0,
    };
    match response {
        Ok(img) => {
            let (d0, d1, d2) = img.dim();
            let ty = img.transmission_element_type();
            let m = ImageBytesMetadata {
                metadata_version: 1,
                error_number: 0,
                client_transaction_id: client,
                server_transaction_id,
                data_start: METADATA_SIZE as i32,
                image_element_type: IMAGE_ELEMENT_TYPE_I32,
                transmission_element_type: ty.into_primitive(),
                rank: img.rank().into_primitive(),
                dimension_1: d0 as i32,
                dimension_2: d1 as i32,
                dimension_3: if d2 == 1 { 0 } else { d2 as i32 },
            };
            push_metadata(&mut out, &m);
            let ghost header = out@;
            let data = img.as_slice();
            let size = ty.size();
            let mut i: usize = 0;
            while i < data.len()
                invariant
                    i <= data@.len(),
                    size == ty.spec_size(),
                    out@ == header + encode_elements(ty, data@.take(i as int)),
                decreases data@.len() - i,
            {
                push_le_bytes(&mut out, u32_bits(data[i]), size);
                assert(data@.take(i + 1).drop_last() =~= data@.take(i as int));
                i = i + 1;
            }
            assert(data@.take(data@.len() as int) =~= data@);
        },
        Err(e) => {
            let m = ImageBytesMetadata {
                metadata_version: 1,
                error_number: e.code.raw() as i32,
                client_transaction_id: client,
                server_transaction_id,
                data_start: METADATA_SIZE as i32,
                image_element_type: 0,
                transmission_element_type: 0,
                rank: 0,
                dimension_1: 0,
                dimension_2: 0,
                dimension_3: 0,
            };
            push_metadata(&mut out, &m);
            let bytes = e.message.as_str().as_bytes();
            let mut i: usize = 0;
            let ghost header = out@;
            while i < bytes.len()
                invariant
                    i <= bytes@.len(),
                    out@ == header + bytes@.take(i as int),
                decreases bytes@.len() - i,
            {
                out.push(bytes[i]);
                i = i + 1;
                assert(out@ =~= header + bytes@.take(i as int));
            }
            assert(bytes@.take(bytes@.len() as int) =~= bytes@);
        },
    }
    out
}

/// Reading back the four little-endian bytes of a 32-bit number gives the number.
pub proof fn lemma_le_bytes_round_trip(u: int)
    requires
        0 <= u < 0x1_0000_0000,
    ensures
        le_u32_at(le_bytes(u), 0) == u,
        le_bytes(u).len() == 4,
{
    let b = le_bytes(u);
    assert(b[0] as int == u % 256);
    assert(b[1] as int == (u / 256) % 256);
    assert(b[2] as int == (u / 65536) % 256);
    assert(b[3] as int == (u / 16777216) % 256);
    assert(u % 256 + 256 * ((u / 256) % 256) + 65536 * ((u / 65536) % 256) + 16777216 * ((u / 16777216) % 256) == u);
}

proof fn lemma_field_round_trip(b: Seq<u8>, at: int, v: i32)
    requires
        0 <= at,
        at + 4 <= b.len(),
        b.subrange(at, at + 4) == le_bytes(bits_of(v)),
    ensures
        le_i32_at(b, at) == v,
        le_u32_at(b, at) == bits_of(v),
{
    lemma_le_bytes_round_trip(bits_of(v));
    let c = b.subrange(at, at + 4);
    assert(c[0] == b[at] && c[1] == b[at + 1] && c[2] == b[at + 2] && c[3] == b[at + 3]);
}

proof fn lemma_u32_field_round_trip(b: Seq<u8>, at: int, v: u32)
    requires
        0 <= at,
        at + 4 <= b.len(),
        b.subrange(at, at + 4) == le_bytes(v as int),
    ensures
        le_u32_at(b, at) == v,
{
    lemma_le_bytes_round_trip(v as int);
    let c = b.subrange(at, at + 4);
    assert(c[0] == b[at] && c[1] == b[at + 1] && c[2] == b[at + 2] && c[3] == b[at + 3]);
}

/// Reading back the header of a payload gives the header that was written.
#[verifier::spinoff_prover]
#[verifier::rlimit(40)]
pub proof fn lemma_metadata_round_trip(m: ImageBytesMetadata, rest: Seq<u8>)
    ensures
        metadata_of(metadata_bytes(m) + rest) == m,
        metadata_bytes(m).len() == METADATA_SIZE,
{
    let b = metadata_bytes(m) + rest;
    let h = metadata_bytes(m);
    assert(h.len() == 44);
    assert(b.subrange(0, 4) =~= le_bytes(bits_of(m.metadata_version)));
    assert(b.subrange(4, 8) =~= le_bytes(bits_of(m.error_number)));
    assert(b.subrange(8, 12) =~= le_bytes(m.client_transaction_id as int));
    assert(b.subrange(12, 16) =~= le_bytes(m.server_transaction_id as int));
    assert(b.subrange(16, 20) =~= le_bytes(bits_of(m.data_start)));
    assert(b.subrange(20, 24) =~= le_bytes(bits_of(m.image_element_type)));
    assert(b.subrange(24, 28) =~= le_bytes(bits_of(m.transmission_element_type)));
    assert(b.subrange(28, 32) =~= le_bytes(bits_of(m.rank)));
    assert(b.subrange(32, 36) =~= le_bytes(bits_of(m.dimension_1)));
    assert(b.subrange(36, 40) =~= le_bytes(bits_of(m.dimension_2)));
    assert(b.subrange(40, 44) =~= le_bytes(bits_of(m.dimension_3)));
    lemma_field_round_trip(b, 0, m.metadata_version);
    lemma_field_round_trip(b, 4, m.error_number);
    lemma_u32_field_round_trip(b, 8, m.client_transaction_id);
    lemma_u32_field_round_trip(b, 12, m.server_transaction_id);
    lemma_field_round_trip(b, 16, m.data_start);
    lemma_field_round_trip(b, 20, m.image_element_type);
    lemma_field_round_trip(b, 24, m.transmission_element_type);
    lemma_field_round_trip(b, 28, m.rank);
    lemma_field_round_trip(b, 32, m.dimension_1);
    lemma_field_round_trip(b, 36, m.dimension_2);
    lemma_field_round_trip(b, 40, m.dimension_3);
}

/// Reading back the bytes of a pixel gives the pixel, when it is a value of the element
/// type.
pub proof fn lemma_element_round_trip(ty: TransmissionElementType, v: i32)
    requires
        ty.fits(v),
    ensures
        element_bytes(ty, v).len() == ty.spec_size(),
        element_value(ty, element_bytes(ty, v)) == v,
{
    let u = bits_of(v);
    lemma_le_bytes_round_trip(u);
    let c = element_bytes(ty, v);
    match ty {
        TransmissionElementType::U8 => {
            assert(c[0] as int == u % 256);
        },
        TransmissionElementType::U16 => {
            assert(c[0] as int == u % 256);
            assert(c[1] as int == (u / 256) % 256);
        },
        TransmissionElementType::I16 => {
            assert(c[0] as int == u % 256);
            assert(c[1] as int == (u / 256) % 256);
            if v < 0 {
                assert(u % 256 + 256 * ((u / 256) % 256) == v + 65536);
            } else {
                assert(u % 256 + 256 * ((u / 256) % 256) == v);
            }
        },
        TransmissionElementType::I32 => {
            assert(c =~= le_bytes(u));
        },
    }
}

/// The payload of `n` pixels has `n` times the element size bytes, and pixel `i` sits at
/// offset `i` times the element size.
pub proof fn lemma_encode_elements_layout(ty: TransmissionElementType, data: Seq<i32>, i: int)
    requires
        0 <= i < data.len(),
    ensures
        encode_elements(ty, data).len() == data.len() * ty.spec_size(),
        encode_elements(ty, data).subrange(i * ty.spec_size(), i * ty.spec_size() + ty.spec_size())
            == element_bytes(ty, data[i]),
    decreases data.len(),
{
    let s = ty.spec_size() as int;
    let n = data.len() as int;
    lemma_encode_elements_len(ty, data.drop_last());
    let prefix = encode_elements(ty, data.drop_last());
    let last = element_bytes(ty, data.last());
    assert(last.len() == s) by {
        lemma_le_bytes_round_trip(bits_of(data.last()));
    }
    assert(encode_elements(ty, data) == prefix + last);
    assert(prefix.len() == (n - 1) * s);
    assert((n - 1) * s + s == n * s) by (nonlinear_arith);
    if i == n - 1 {
        assert((prefix + last).subrange(i * s, i * s + s) =~= last);
    } else {
        lemma_encode_elements_layout(ty, data.drop_last(), i);
        assert(i * s + s <= (n - 1) * s) by (nonlinear_arith)
            requires
                i < n - 1,
                s > 0,
        ;
        assert(0 <= i * s) by (nonlinear_arith)
            requires
                i >= 0,
                s > 0,
        ;
        assert((prefix + last).subrange(i * s, i * s + s) =~= prefix.subrange(i * s, i * s + s));
    }
}

/// The payload of `n` pixels has `n` times the element size bytes.
pub proof fn lemma_encode_elements_len(ty: TransmissionElementType, data: Seq<i32>)
    ensures
        encode_elements(ty, data).len() == data.len() * ty.spec_size(),
    decreases data.len(),
{
    let s = ty.spec_size() as int;
    if data.len() > 0 {
        lemma_encode_elements_len(ty, data.drop_last());
        lemma_le_bytes_round_trip(bits_of(data.last()));
        assert((data.len() - 1) * s + s == data.len() * s) by (nonlinear_arith);
    }
}

/// Decoding the bytes of pixels that are values of the element type gives the pixels back.
pub proof fn lemma_elements_round_trip(ty: TransmissionElementType, data: Seq<i32>)
    requires
        forall|i: int| 0 <= i < data.len() ==> #[trigger] ty.fits(data[i]),
    ensures
        decode_elements(ty, encode_elements(ty, data)) == Some(data),
{
    let s = ty.spec_size() as int;
    let n = data.len() as int;
    let enc = encode_elements(ty, data);
    lemma_encode_elements_len(ty, data);
    assert(enc.len() == n * s);
    vstd::arithmetic::div_mod::lemma_fundamental_div_mod_converse(n * s, s, n, 0);
    let decoded = Seq::new((enc.len() as int / s) as nat, |i: int| element_value(ty, enc.subrange(i * s, i * s + s)));
    assert forall|i: int| 0 <= i < n implies #[trigger] decoded[i] == data[i] by {
        lemma_encode_elements_layout(ty, data, i);
        lemma_element_round_trip(ty, data[i]);
    }
    assert(decoded =~= data);
}

/// An image read back from the wire: the same dimensions and pixels, which now travel
/// as 32-bit integers.
pub open spec fn as_received(img: ImageArrayModel) -> ImageArrayModel {
    ImageArrayModel { dim: img.dim, data: img.data, ty: TransmissionElementType::I32 }
}

/// Reading back an `ImageBytes` payload gives the response that was written, with the
/// transaction IDs of its header.
///
/// This holds for every well-formed image whose dimensions fit the header and describe an
/// array the reader accepts, and for every error whose code lies in the valid range (a
/// zero error number would read back as success).
pub proof fn lemma_image_bytes_round_trip(
    response: Result<ImageArrayModel, (u16, Seq<char>)>,
    client: Option<u32>,
    server: u32,
)
    requires
        client != Some(0u32),
        server != 0,
        response matches Ok(img) ==> {
            &&& img.wf()
            &&& img.dim.0 <= i32::MAX && img.dim.1 <= i32::MAX && img.dim.2 <= i32::MAX
            &&& shape_accepts(img.dim, img.data.len())
        },
        response matches Err((code, _)) ==> in_valid_range(code as int),
    ensures
        spec_parse_image_bytes(spec_encode_image_bytes(response, client, server)) == Ok::<
            _,
            ImageBytesError,
        >(
            (
                ResponseTransaction {
                    client_transaction_id: client,
                    server_transaction_id: Some(server),
                },
                match response {
                    Ok(img) => Ok(as_received(img)),
                    Err(e) => Err(e),
                },
            ),
        ),
{
    let b = spec_encode_image_bytes(response, client, server);
    match response {
        Ok(img) => {
            let m = image_metadata(img, client, server);
            let payload = encode_elements(img.ty, img.data);
            lemma_metadata_round_trip(m, payload);
            assert(b.subrange(44, b.len() as int) =~= payload);
            lemma_elements_round_trip(img.ty, img.data);
            assert(element_type_of(img.ty.spec_value()) == Some(img.ty));
        },
        Err((code, message)) => {
            let m = error_metadata(code, client, server);
            let payload = encode_utf8(message);
            lemma_metadata_round_trip(m, payload);
            assert(b.subrange(44, b.len() as int) =~= payload);
            vstd::utf8::encode_utf8_valid_utf8(message);
            vstd::utf8::encode_utf8_decode_utf8(message);
        },
    }
}

/// How the pixels of an ImageBytes payload are read, by the transmission element type
/// number in its header: under 6 each pixel is one byte, read unsigned; under 8 two bytes,
/// little-endian unsigned; under 1 two bytes, little-endian two's complement; under 2 four
/// bytes, little-endian two's complement. No other number names an element type.
pub proof fn lemma_transmission_numbers_decode(number: i32, b0: u8, b1: u8, b2: u8, b3: u8)
    ensures
        element_type_of(6) matches Some(t) && t.spec_size() == 1
            && element_value(t, seq![b0]) == b0 as i32,
        element_type_of(8) matches Some(t) && t.spec_size() == 2
            && element_value(t, seq![b0, b1]) == b0 + 0x100 * b1,
        element_type_of(1) matches Some(t) && t.spec_size() == 2
            && element_value(t, seq![b0, b1]) == (if b1 < 0x80 {
                b0 + 0x100 * b1
            } else {
                b0 + 0x100 * b1 - 0x1_0000
            }),
        element_type_of(2) matches Some(t) && t.spec_size() == 4
            && element_value(t, seq![b0, b1, b2, b3]) == (if b3 < 0x80 {
                b0 + 0x100 * b1 + 0x1_0000 * b2 + 0x100_0000 * b3
            } else {
                b0 + 0x100 * b1 + 0x1_0000 * b2 + 0x100_0000 * b3 - 0x1_0000_0000
            }),
        (number != 1 && number != 2 && number != 6 && number != 8) ==> element_type_of(number) is None,
        element_type_of(number) matches Some(t) ==> t.spec_value() == number,
{
}

/// The layout of the metadata header: eleven 32-bit little-endian fields, one after the
/// other from byte 0 — version, error number, client and server transaction IDs (unsigned),
/// data start, image element type, transmission element type, rank and the three
/// dimensions — the signed ones in two's complement.
pub proof fn lemma_metadata_layout(b: Seq<u8>)
    requires
        b.len() >= 44,
    ensures
        metadata_of(b).metadata_version == (if b[3] < 0x80 {
            b[0] + 0x100 * b[1] + 0x1_0000 * b[2] + 0x100_0000 * b[3]
        } else {
            b[0] + 0x100 * b[1] + 0x1_0000 * b[2] + 0x100_0000 * b[3] - 0x1_0000_0000
        }),
        metadata_of(b).error_number == (if b[7] < 0x80 {
            b[4] + 0x100 * b[5] + 0x1_0000 * b[6] + 0x100_0000 * b[7]
        } else {
            b[4] + 0x100 * b[5] + 0x1_0000 * b[6] + 0x100_0000 * b[7] - 0x1_0000_0000
        }),
        metadata_of(b).client_transaction_id == b[8] + 0x100 * b[9] + 0x1_0000 * b[10] + 0x100_0000 * b[11],
        metadata_of(b).server_transaction_id == b[12] + 0x100 * b[13] + 0x1_0000 * b[14] + 0x100_0000 * b[15],
        metadata_of(b).data_start == (if b[19] < 0x80 {
            b[16] + 0x100 * b[17] + 0x1_0000 * b[18] + 0x100_0000 * b[19]
        } else {
            b[16] + 0x100 * b[17] + 0x1_0000 * b[18] + 0x100_0000 * b[19] - 0x1_0000_0000
        }),
        metadata_of(b).image_element_type == (if b[23] < 0x80 {
            b[20] + 0x100 * b[21] + 0x1_0000 * b[22] + 0x100_0000 * b[23]
        } else {
            b[20] + 0x100 * b[21] + 0x1_0000 * b[22] + 0x100_0000 * b[23] - 0x1_0000_0000
        }),
        metadata_of(b).transmission_element_type == (if b[27] < 0x80 {
            b[24] + 0x100 * b[25] + 0x1_0000 * b[26] + 0x100_0000 * b[27]
        } else {
            b[24] + 0x100 * b[25] + 0x1_0000 * b[26] + 0x100_0000 * b[27] - 0x1_0000_0000
        }),
        metadata_of(b).rank == (if b[31] < 0x80 {
            b[28] + 0x100 * b[29] + 0x1_0000 * b[30] + 0x100_0000 * b[31]
        } else {
            b[28] + 0x100 * b[29] + 0x1_0000 * b[30] + 0x100_0000 * b[31] - 0x1_0000_0000
        }),
        metadata_of(b).dimension_1 == (if b[35] < 0x80 {
            b[32] + 0x100 * b[33] + 0x1_0000 * b[34] + 0x100_0000 * b[35]
        } else {
            b[32] + 0x100 * b[33] + 0x1_0000 * b[34] + 0x100_0000 * b[35] - 0x1_0000_0000
        }),
        metadata_of(b).dimension_2 == (if b[39] < 0x80 {
            b[36] + 0x100 * b[37] + 0x1_0000 * b[38] + 0x100_0000 * b[39]
        } else {
            b[36] + 0x100 * b[37] + 0x1_0000 * b[38] + 0x100_0000 * b[39] - 0x1_0000_0000
        }),
        metadata_of(b).dimension_3 == (if b[43] < 0x80 {
            b[40] + 0x100 * b[41] + 0x1_0000 * b[42] + 0x100_0000 * b[43]
        } else {
            b[40] + 0x100 * b[41] + 0x1_0000 * b[42] + 0x100_0000 * b[43] - 0x1_0000_0000
        }),
{
}

} // verus!
