use ascom_alpaca::errors::{ASCOMError, ASCOMErrorCode};
use ascom_alpaca::image_array::{AsTransmissionElementType, CastError, ImageArray, ImageArrayRank, TransmissionElementType};
use ascom_alpaca::image_bytes::{encode_image_bytes, parse_image_bytes, ImageBytesError, METADATA_SIZE};
use ascom_alpaca::image_json::{image_json_fields, parse_image_json, ImageField, ImageJsonError, JsonNode, ShapeError};

fn le(v: i32) -> [u8; 4] {
    v.to_le_bytes()
}

/// An `application/imagebytes` payload of a 2D image `pixels.len() x 1` in 32-bit pixels,
/// placed after `leading_pad` bytes of padding; returns the buffer and the payload range.
fn imagebytes_payload_at_offset(leading_pad: usize, pixels: &[i32]) -> (Vec<u8>, std::ops::Range<usize>) {
    let mut buf = vec![0u8; leading_pad];
    let start = buf.len();
    for field in [
        1,
        0,
        0,
        0,
        METADATA_SIZE as i32,
        2,
        2,
        2,
        pixels.len() as i32,
        1,
        0,
    ] {
        buf.extend_from_slice(&le(field));
    }
    for p in pixels {
        buf.extend_from_slice(&le(*p));
    }
    let end = buf.len();
    (buf, start..end)
}

#[test]
fn from_reqwest_handles_unaligned_imagebytes_slice() {
    let pixels: Vec<i32> = (0_i32..16_i32).collect();
    for leading_pad in 0_usize..4_usize {
        let (buf, range) = imagebytes_payload_at_offset(leading_pad, &pixels);
        let parsed = parse_image_bytes(&buf[range]).unwrap_or_else(|e| panic!("leading_pad={leading_pad}: {e:?}"));
        let array = parsed.response.unwrap_or_else(|e| panic!("leading_pad={leading_pad}: {e:?}"));
        assert_eq!(array.dim(), (pixels.len(), 1, 1));
        for (i, &p) in pixels.iter().enumerate() {
            assert_eq!(array.get(i, 0, 0), Some(p), "leading_pad={leading_pad}: pixel {i}");
        }
    }
}

#[test]
fn widen_unaligned_widens_each_element_type() {
    assert_eq!(
        i16::widen_unaligned(&[0x00_u8, 0x80, 0xff, 0x7f]).expect("even length"),
        vec![i32::from(i16::MIN), i32::from(i16::MAX)],
    );
    assert_eq!(
        u16::widen_unaligned(&[0x00_u8, 0x80, 0xff, 0xff]).expect("even length"),
        vec![0x8000_i32, 0xffff_i32],
    );
    assert_eq!(
        u8::widen_unaligned(&[0x00_u8, 0x80, 0xff]).expect("any length"),
        vec![0_i32, 128_i32, 255_i32],
    );
    assert_eq!(
        i32::widen_unaligned(&[0xff_u8, 0xff, 0xff, 0xff]).expect("multiple of four"),
        vec![-1_i32],
    );
    assert!(i16::widen_unaligned(&[0x00_u8, 0x80, 0x01]).is_err());
}

#[test]
fn widen_unaligned_reports_slop() {
    assert_eq!(u16::widen_unaligned(&[1]), Err(CastError::OutputSliceWouldHaveSlop));
    assert_eq!(i32::widen_unaligned(&[1, 2, 3]), Err(CastError::OutputSliceWouldHaveSlop));
    assert_eq!(i32::widen_unaligned(&[]), Ok(vec![]));
}

#[test]
fn image_array_rank_and_lookup() {
    let img = ImageArray::from_elements_2d((2, 3), &[1u8, 2, 3, 4, 5, 6]);
    assert_eq!(img.rank(), ImageArrayRank::Rank2);
    assert_eq!(img.dim(), (2, 3, 1));
    assert_eq!(img.transmission_element_type(), TransmissionElementType::U8);
    assert_eq!(img.get(1, 2, 0), Some(6));
    assert_eq!(img.get(2, 0, 0), None);
    let colour = ImageArray::from_elements((1, 1, 3), &[-1i16, 0, 1]);
    assert_eq!(colour.rank(), ImageArrayRank::Rank3);
    assert_eq!(colour.get(0, 0, 2), Some(1));
    assert!(ImageArray::from_shape_vec((2, 2, 1), vec![1, 2, 3]).is_none());
    assert!(ImageArray::from_shape_vec((2, 2, 1), vec![1, 2, 3, 4]).is_some());
    assert_eq!(ImageArrayRank::try_from_primitive(3), Some(ImageArrayRank::Rank3));
    assert_eq!(ImageArrayRank::try_from_primitive(4), None);
    assert_eq!(ImageArrayRank::Rank2.into_primitive(), 2);
}

#[test]
fn image_bytes_round_trip_of_u16_image() {
    let img = ImageArray::from_elements((2, 2, 1), &[0u16, 1, 65535, 300]);
    let bytes = encode_image_bytes(&Ok(img), Some(7), 9);
    assert_eq!(bytes.len(), METADATA_SIZE + 4 * 2);
    assert_eq!(&bytes[0..4], &le(1));
    assert_eq!(&bytes[24..28], &le(8));
    assert_eq!(&bytes[40..44], &le(0));
    let parsed = parse_image_bytes(&bytes).expect("valid payload");
    assert_eq!(parsed.transaction.client_transaction_id, Some(7));
    assert_eq!(parsed.transaction.server_transaction_id, Some(9));
    let back = parsed.response.expect("an image");
    assert_eq!(back.dim(), (2, 2, 1));
    assert_eq!(back.as_slice(), &[0, 1, 65535, 300]);
    assert_eq!(back.transmission_element_type(), TransmissionElementType::I32);
}

#[test]
fn image_bytes_round_trip_of_error() {
    let err = ASCOMError::new(ASCOMErrorCode::invalid_value(), "bad exposure".to_owned());
    let bytes = encode_image_bytes(&Err(err), None, 3);
    assert_eq!(&bytes[4..8], &le(0x401));
    let parsed = parse_image_bytes(&bytes).expect("valid payload");
    assert_eq!(parsed.transaction.client_transaction_id, None);
    let e = parsed.response.expect_err("an error");
    assert_eq!(e.code, ASCOMErrorCode::invalid_value());
    assert_eq!(e.message, "bad exposure");
}

#[test]
fn image_bytes_errors() {
    assert_eq!(parse_image_bytes(&[0u8; 10]).err(), Some(ImageBytesError::NotEnoughBytes));
    let pixels = [5i32];
    let (mut buf, _) = imagebytes_payload_at_offset(0, &pixels);
    buf[0] = 2;
    assert_eq!(parse_image_bytes(&buf).err(), Some(ImageBytesError::UnsupportedMetadataVersion(2)));
    let (mut buf, _) = imagebytes_payload_at_offset(0, &pixels);
    buf[28..32].copy_from_slice(&le(4));
    assert_eq!(parse_image_bytes(&buf).err(), Some(ImageBytesError::UnsupportedRank(4)));
    let (mut buf, _) = imagebytes_payload_at_offset(0, &pixels);
    buf[24..28].copy_from_slice(&le(3));
    assert_eq!(parse_image_bytes(&buf).err(), Some(ImageBytesError::UnsupportedTransmissionElementType(3)));
    let (mut buf, _) = imagebytes_payload_at_offset(0, &pixels);
    buf.push(0);
    assert_eq!(parse_image_bytes(&buf).err(), Some(ImageBytesError::TrailingBytes));
    let (mut buf, _) = imagebytes_payload_at_offset(0, &pixels);
    buf[16..20].copy_from_slice(&le(10));
    assert_eq!(parse_image_bytes(&buf).err(), Some(ImageBytesError::DataStartWithinMetadata(10)));
    let (mut buf, _) = imagebytes_payload_at_offset(0, &pixels);
    buf[32..36].copy_from_slice(&le(2));
    assert_eq!(parse_image_bytes(&buf).err(), Some(ImageBytesError::ShapeMismatch));
}

fn num(v: i128) -> JsonNode {
    JsonNode::Integer(v)
}

fn arr(items: Vec<JsonNode>) -> JsonNode {
    JsonNode::Array(items)
}

fn fields(ty: i128, rank: i128, value: JsonNode) -> Vec<(String, JsonNode)> {
    vec![("Type".to_owned(), num(ty)), ("Rank".to_owned(), num(rank)), ("Value".to_owned(), value)]
}

#[test]
fn image_json_reads_rank_2() {
    let value = arr(vec![arr(vec![num(1), num(2), num(3)]), arr(vec![num(4), num(5), num(6)])]);
    let img = parse_image_json(&fields(2, 2, value)).expect("a 2x3 image");
    assert_eq!(img.dim(), (2, 3, 1));
    assert_eq!(img.as_slice(), &[1, 2, 3, 4, 5, 6]);
}

#[test]
fn image_json_reads_rank_3_and_skips_other_fields() {
    let value = arr(vec![arr(vec![arr(vec![num(1), num(2)])])]);
    let mut f = vec![("ClientTransactionID".to_owned(), num(4))];
    f.extend(fields(2, 3, value));
    f.push(("ErrorNumber".to_owned(), num(0)));
    let img = parse_image_json(&f).expect("a 1x1x2 image");
    assert_eq!(img.dim(), (1, 1, 2));
    assert_eq!(img.as_slice(), &[1, 2]);
}

#[test]
fn image_json_errors() {
    let ok_value = || arr(vec![arr(vec![num(1)])]);
    assert_eq!(parse_image_json(&fields(3, 2, ok_value())).err(), Some(ImageJsonError::UnsupportedType));
    assert_eq!(parse_image_json(&fields(2, 4, ok_value())).err(), Some(ImageJsonError::InvalidRank));
    let swapped = vec![("Rank".to_owned(), num(2)), ("Type".to_owned(), num(2))];
    assert_eq!(
        parse_image_json(&swapped).err(),
        Some(ImageJsonError::UnexpectedField { expected: ImageField::Type, got: Some(ImageField::Rank) })
    );
    assert_eq!(
        parse_image_json(&vec![]).err(),
        Some(ImageJsonError::UnexpectedField { expected: ImageField::Type, got: None })
    );
    let ragged = arr(vec![arr(vec![num(1), num(2)]), arr(vec![num(3)])]);
    assert_eq!(
        parse_image_json(&fields(2, 2, ragged)).err(),
        Some(ImageJsonError::Shape(ShapeError::InvalidLength { actual: 1, expected: 2 }))
    );
    let too_big = arr(vec![arr(vec![num(1 << 40)])]);
    assert_eq!(parse_image_json(&fields(2, 2, too_big)).err(), Some(ImageJsonError::Shape(ShapeError::InvalidValue)));
    let not_array = arr(vec![num(1)]);
    assert_eq!(parse_image_json(&fields(2, 2, not_array)).err(), Some(ImageJsonError::Shape(ShapeError::InvalidType)));
    let other = arr(vec![arr(vec![JsonNode::Other])]);
    assert_eq!(parse_image_json(&fields(2, 2, other)).err(), Some(ImageJsonError::Shape(ShapeError::InvalidType)));
}

#[test]
fn image_json_first_pass_quirk() {
    // An empty row before the first full one fixes a length that the full row then
    // overwrites; the lengths no longer describe the pixels.
    let value = arr(vec![arr(vec![]), arr(vec![arr(vec![num(1), num(2)])])]);
    assert_eq!(parse_image_json(&fields(2, 3, value)).err(), Some(ImageJsonError::ShapeMismatch));
}

#[test]
fn image_json_round_trip() {
    let img = ImageArray::from_elements((2, 2, 3), &(0i32..12).collect::<Vec<_>>());
    let f = image_json_fields(&img);
    assert_eq!(f[0].0, "Type");
    assert_eq!(f[1].0, "Rank");
    assert_eq!(f[2].0, "Value");
    let back = parse_image_json(&f).expect("round trip");
    assert_eq!(back.dim(), (2, 2, 3));
    assert_eq!(back.as_slice(), img.as_slice());
    let flat = ImageArray::from_elements_2d((3, 1), &[7u8, 8, 9]);
    let back = parse_image_json(&image_json_fields(&flat)).expect("round trip");
    assert_eq!(back.dim(), (3, 1, 1));
    assert_eq!(back.as_slice(), &[7, 8, 9]);
}

#[test]
fn image_bytes_header_errors() {
    let pixels = [5i32];
    let (mut buf, _) = imagebytes_payload_at_offset(0, &pixels);
    buf[16..20].copy_from_slice(&le(-4));
    assert_eq!(parse_image_bytes(&buf).err(), Some(ImageBytesError::NegativeDataStart(-4)));
    let (mut buf, _) = imagebytes_payload_at_offset(0, &pixels);
    buf[16..20].copy_from_slice(&le(100));
    assert_eq!(parse_image_bytes(&buf).err(), Some(ImageBytesError::DataStartOutOfBounds(100)));
    let (mut buf, _) = imagebytes_payload_at_offset(0, &pixels);
    buf[20..24].copy_from_slice(&le(1));
    assert_eq!(parse_image_bytes(&buf).err(), Some(ImageBytesError::UnsupportedImageElementType(1)));
    let (mut buf, _) = imagebytes_payload_at_offset(0, &pixels);
    buf[32..36].copy_from_slice(&le(-1));
    assert_eq!(parse_image_bytes(&buf).err(), Some(ImageBytesError::NegativeDimension(-1)));
    let (mut buf, _) = imagebytes_payload_at_offset(0, &pixels);
    buf[40..44].copy_from_slice(&le(3));
    assert_eq!(parse_image_bytes(&buf).err(), Some(ImageBytesError::NonZeroDimension3(3)));
    let (mut buf, _) = imagebytes_payload_at_offset(0, &[]);
    buf[4..8].copy_from_slice(&le(0x401));
    buf.extend_from_slice(&[0xff, 0xfe]);
    assert_eq!(parse_image_bytes(&buf).err(), Some(ImageBytesError::InvalidUtf8));
}

#[test]
fn image_bytes_out_of_range_error_number_reads_as_unspecified() {
    let mut buf = Vec::new();
    for field in [1, -2147024882, 0, 0, METADATA_SIZE as i32, 0, 0, 0, 0, 0, 0] {
        buf.extend_from_slice(&le(field));
    }
    buf.extend_from_slice(b"Not enough storage");
    let parsed = parse_image_bytes(&buf).expect("a readable payload");
    let e = parsed.response.expect_err("an error response");
    assert_eq!(e.code, ASCOMErrorCode::unspecified());
    assert_eq!(e.message, "Error code 0x8007000E is out of valid range (0x400..=0xFFF): Not enough storage");
    let mut small = buf[..METADATA_SIZE].to_vec();
    small[4..8].copy_from_slice(&le(5));
    small.extend_from_slice(b"x");
    let e = parse_image_bytes(&small).expect("a readable payload").response.expect_err("an error response");
    assert_eq!(e.code, ASCOMErrorCode::unspecified());
    assert_eq!(e.message, "Error code 0x5 is out of valid range (0x400..=0xFFF): x");
}
