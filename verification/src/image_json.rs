//! Image arrays in JSON form: `{"Type": 2, "Rank": 2 or 3, "Value": nested arrays}`.
//!
//! The nested arrays are read in one pass. The first arrays met at each depth, up to and
//! including the first innermost array, fix the shape; every later array must have the
//! length fixed for its depth.

use vstd::prelude::*;
use crate::image_array::{
    ImageArray, ImageArrayModel, ImageArrayRank, TransmissionElementType, nonzero_or_one,
    shape_accepts,
};
use crate::text::same_text;

verus! {

/// A JSON value, as far as an image array in JSON form tells values apart.
#[derive(Debug)]
pub enum JsonNode {
    /// An integer.
    Integer(i128),
    /// An array.
    Array(Vec<JsonNode>),
    /// `null`.
    Null,
    /// Any other value: a fractional number, a string, a boolean or an object.
    Other,
}

/// Why nested arrays could not be read as an image.
#[derive(Debug, Clone, Copy, PartialEq, Eq, Structural)]
pub enum ShapeError {
    /// A value of the wrong kind: an array where a pixel was expected, or the reverse.
    InvalidType,
    /// A pixel that does not fit in `i32`.
    InvalidValue,
    /// An array whose length differs from the length fixed for its depth.
    InvalidLength {
        /// The length found.
        actual: usize,
        /// The length fixed for the depth.
        expected: usize,
    },
}

/// The state of a pass over nested arrays.
pub struct WalkState {
    /// The length fixed so far for each depth.
    pub shape: Seq<usize>,
    /// Whether no innermost array has been entered yet.
    pub first_pass: bool,
    /// The pixels read so far, in order.
    pub data: Seq<i32>,
}

/// The pixel a JSON value stands for.
pub open spec fn leaf_value(n: JsonNode) -> Result<i32, ShapeError> {
    match n {
        JsonNode::Integer(v) => if i32::MIN <= v <= i32::MAX {
            Ok(v as i32)
        } else {
            Err(ShapeError::InvalidValue)
        },
        _ => Err(ShapeError::InvalidType),
    }
}

/// `data` with the pixels of `items` appended, or the error of the first item that is
/// no pixel.
pub open spec fn take_leaves(items: Seq<JsonNode>, data: Seq<i32>) -> Result<Seq<i32>, ShapeError>
    decreases items.len(),
{
    if items.len() == 0 {
        Ok(data)
    } else {
        match leaf_value(items[0]) {
            Ok(v) => take_leaves(items.subrange(1, items.len() as int), data.push(v)),
            Err(e) => Err(e),
        }
    }
}

/// The state after reading `node` as an array at depth `depth`; the innermost depth is
/// the last one of `st.shape`.
pub open spec fn walk(node: JsonNode, depth: nat, st: WalkState) -> Result<WalkState, ShapeError>
    decreases node,
{
    match node {
        JsonNode::Array(items) => {
            let len = items@.len();
            let inner = if depth + 1 >= st.shape.len() {
                match take_leaves(items@, st.data) {
                    Ok(d) => Ok(WalkState { shape: st.shape, first_pass: false, data: d }),
                    Err(e) => Err(e),
                }
            } else {
                walk_items(items@, depth + 1, st)
            };
            match inner {
                Err(e) => Err(e),
                Ok(s2) => if st.first_pass {
                    Ok(WalkState { shape: s2.shape.update(depth as int, len as usize), ..s2 })
                } else if s2.shape[depth as int] != len {
                    Err(
                        ShapeError::InvalidLength {
                            actual: len as usize,
                            expected: s2.shape[depth as int],
                        },
                    )
                } else {
                    Ok(s2)
                },
            }
        },
        _ => Err(ShapeError::InvalidType),
    }
}

/// The state after reading each of `items` in turn as an array at depth `depth`.
pub open spec fn walk_items(items: Seq<JsonNode>, depth: nat, st: WalkState) -> Result<
    WalkState,
    ShapeError,
>
    decreases items,
{
    if items.len() == 0 {
        Ok(st)
    } else {
        match walk(items[0], depth, st) {
            Ok(s) => walk_items(items.subrange(1, items.len() as int), depth, s),
            Err(e) => Err(e),
        }
    }
}

/// A pass over nested arrays in progress.
pub struct ArrayWalk {
    /// The length fixed so far for each depth.
    pub shape: Vec<usize>,
    /// Whether no innermost array has been entered yet.
    pub first_pass: bool,
    /// The pixels read so far, in order.
    pub data: Vec<i32>,
}

impl View for ArrayWalk {
    type V = WalkState;

    open spec fn view(&self) -> WalkState {
        WalkState { shape: self.shape@, first_pass: self.first_pass, data: self.data@ }
    }
}

impl ArrayWalk {
    /// A pass about to start on the nested arrays of an image of rank `rank`: no pixel
    /// read yet, and the lengths `[0, 0, 1]` cut to the rank.
    pub fn new(rank: ImageArrayRank) -> (r: Self)
        ensures
            r@ == (WalkState { shape: initial_shape(rank), first_pass: true, data: Seq::empty() }),
    {
        let r = ArrayWalk {
            shape: match rank {
                ImageArrayRank::Rank2 => vec![0usize, 0usize],
                ImageArrayRank::Rank3 => vec![0usize, 0usize, 1usize],
            },
            first_pass: true,
            data: Vec::new(),
        };
        assert(r@.shape =~= initial_shape(rank));
        assert(r@.data =~= Seq::<i32>::empty());
        r
    }
}

fn take_leaves_exec(items: &Vec<JsonNode>, data: &mut Vec<i32>) -> (r: Result<(), ShapeError>)
    ensures
        match take_leaves(items@, old(data)@) {
            Ok(d) => r is Ok && final(data)@ == d,
            Err(e) => r == Err::<(), ShapeError>(e),
        },
{
    let mut i: usize = 0;
    assert(items@.subrange(0, items@.len() as int) =~= items@);
    while i < items.len()
        invariant
            i <= items@.len(),
            take_leaves(items@, old(data)@) == take_leaves(
                items@.subrange(i as int, items@.len() as int),
                data@,
            ),
        decreases items@.len() - i,
    {
        let ghost rest = items@.subrange(i as int, items@.len() as int);
        assert(rest.subrange(1, rest.len() as int) =~= items@.subrange(
            i + 1,
            items@.len() as int,
        ));
        assert(rest[0] == items@[i as int]);
        match &items[i] {
            JsonNode::Integer(v) => {
                if i32::MIN as i128 <= *v && *v <= i32::MAX as i128 {
                    data.push(*v as i32);
                } else {
                    return Err(ShapeError::InvalidValue);
                }
            },
            _ => {
                return Err(ShapeError::InvalidType);
            },
        }
        i = i + 1;
    }
    assert(items@.subrange(items@.len() as int, items@.len() as int) =~= Seq::<JsonNode>::empty());
    Ok(())
}

fn walk_exec(node: &JsonNode, depth: usize, st: &mut ArrayWalk) -> (r: Result<(), ShapeError>)
    requires
        depth < old(st).shape@.len(),
    ensures
        match walk(*node, depth as nat, old(st)@) {
            Ok(s) => r is Ok && final(st)@ == s,
            Err(e) => r == Err::<(), ShapeError>(e),
        },
        final(st).shape@.len() == old(st).shape@.len(),
    decreases node,
{
    match node {
        JsonNode::Array(items) => {
            let first_pass = st.first_pass;
            let ghost start = st@;
            if depth >= st.shape.len() - 1 {
                st.first_pass = false;
                match take_leaves_exec(items, &mut st.data) {
                    Ok(()) => {},
                    Err(e) => {
                        return Err(e);
                    },
                }
            } else {
                match walk_items_exec(items, depth + 1, st) {
                    Ok(()) => {},
                    Err(e) => {
                        return Err(e);
                    },
                }
            }
            let len = items.len();
            if first_pass {
                st.shape.set(depth, len);
            } else if st.shape[depth] != len {
                return Err(ShapeError::InvalidLength { actual: len, expected: st.shape[depth] });
            }
            Ok(())
        },
        _ => Err(ShapeError::InvalidType),
    }
}

fn walk_items_exec(items: &Vec<JsonNode>, depth: usize, st: &mut ArrayWalk) -> (r: Result<
    (),
    ShapeError,
>)
    requires
        depth < old(st).shape@.len(),
    ensures
        match walk_items(items@, depth as nat, old(st)@) {
            Ok(s) => r is Ok && final(st)@ == s,
            Err(e) => r == Err::<(), ShapeError>(e),
        },
        final(st).shape@.len() == old(st).shape@.len(),
    decreases items,
{
    let mut i: usize = 0;
    assert(items@.subrange(0, items@.len() as int) =~= items@);
    while i < items.len()
        invariant
            i <= items@.len(),
            depth < st.shape@.len(),
            st.shape@.len() == old(st).shape@.len(),
            walk_items(items@, depth as nat, old(st)@) == walk_items(
                items@.subrange(i as int, items@.len() as int),
                depth as nat,
                st@,
            ),
        decreases items@.len() - i,
    {
        let ghost rest = items@.subrange(i as int, items@.len() as int);
        assert(rest.subrange(1, rest.len() as int) =~= items@.subrange(
            i + 1,
            items@.len() as int,
        ));
        assert(rest[0] == items@[i as int]);
        match walk_exec(&items[i], depth, st) {
            Ok(()) => {},
            Err(e) => {
                return Err(e);
            },
        }
        i = i + 1;
    }
    assert(items@.subrange(items@.len() as int, items@.len() as int) =~= Seq::<JsonNode>::empty());
    Ok(())
}

/// The fields of an image array in JSON form that carry meaning; all other fields are
/// skipped.
#[derive(Debug, Clone, Copy, PartialEq, Eq, Structural)]
pub enum ImageField {
    /// `"Type"`: the element type, `2` (32-bit integers).
    Type,
    /// `"Rank"`: `2` or `3`.
    Rank,
    /// `"Value"`: the nested arrays of pixels.
    Value,
}

/// Why an image array in JSON form could not be read.
#[derive(Debug, Clone, Copy, PartialEq, Eq, Structural)]
pub enum ImageJsonError {
    /// The next known field is not the one expected here, or there is none.
    UnexpectedField {
        /// The field expected.
        expected: ImageField,
        /// The known field found instead, if any.
        got: Option<ImageField>,
    },
    /// The element type is not `2` (32-bit integers).
    UnsupportedType,
    /// The rank is neither `2` nor `3`.
    InvalidRank,
    /// The nested arrays do not form an image.
    Shape(ShapeError),
    /// The lengths found do not describe the number of pixels found.
    ShapeMismatch,
}

/// The known field that `key` names, if any.
pub open spec fn field_of(key: Seq<char>) -> Option<ImageField> {
    if key == "Type"@ {
        Some(ImageField::Type)
    } else if key == "Rank"@ {
        Some(ImageField::Rank)
    } else if key == "Value"@ {
        Some(ImageField::Value)
    } else {
        None
    }
}

/// The position of the first known field at or after `from`, if it is `expected`.
pub open spec fn find_field(keys: Seq<Seq<char>>, from: int, expected: ImageField) -> Result<
    int,
    ImageJsonError,
>
    decreases keys.len() - from,
{
    if from < 0 || from >= keys.len() {
        Err(ImageJsonError::UnexpectedField { expected, got: None })
    } else {
        match field_of(keys[from]) {
            None => find_field(keys, from + 1, expected),
            Some(f) => if f == expected {
                Ok(from)
            } else {
                Err(ImageJsonError::UnexpectedField { expected, got: Some(f) })
            },
        }
    }
}

/// The lengths a pass starts from: `[0, 0, 1]` cut to the rank.
pub open spec fn initial_shape(rank: ImageArrayRank) -> Seq<usize> {
    match rank {
        ImageArrayRank::Rank2 => seq![0usize, 0usize],
        ImageArrayRank::Rank3 => seq![0usize, 0usize, 1usize],
    }
}

/// The dimensions of the image that a finished pass describes.
pub open spec fn image_dims(rank: ImageArrayRank, shape: Seq<usize>) -> (nat, nat, nat) {
    match rank {
        ImageArrayRank::Rank2 => (shape[0] as nat, shape[1] as nat, 1),
        ImageArrayRank::Rank3 => (shape[0] as nat, shape[1] as nat, shape[2] as nat),
    }
}

/// The rank a JSON value states.
pub open spec fn rank_of(n: JsonNode) -> Option<ImageArrayRank> {
    match n {
        JsonNode::Integer(2) => Some(ImageArrayRank::Rank2),
        JsonNode::Integer(3) => Some(ImageArrayRank::Rank3),
        _ => None,
    }
}

/// The image that the fields of a JSON object describe, or why there is none.
pub open spec fn spec_parse_image_json(keys: Seq<Seq<char>>, values: Seq<JsonNode>) -> Result<
    ImageArrayModel,
    ImageJsonError,
> {
    match find_field(keys, 0, ImageField::Type) {
        Err(e) => Err(e),
        Ok(it) => if values[it] != JsonNode::Integer(2) {
            Err(ImageJsonError::UnsupportedType)
        } else {
            match find_field(keys, it + 1, ImageField::Rank) {
                Err(e) => Err(e),
                Ok(ir) => match rank_of(values[ir]) {
                    None => Err(ImageJsonError::InvalidRank),
                    Some(rank) => match find_field(keys, ir + 1, ImageField::Value) {
                        Err(e) => Err(e),
                        Ok(iv) => match walk(
                            values[iv],
                            0,
                            WalkState { shape: initial_shape(rank), first_pass: true, data: Seq::empty() },
                        ) {
                            Err(e) => Err(ImageJsonError::Shape(e)),
                            Ok(st) => if shape_accepts(image_dims(rank, st.shape), st.data.len()) {
                                Ok(
                                    ImageArrayModel {
                                        dim: image_dims(rank, st.shape),
                                        data: st.data,
                                        ty: TransmissionElementType::I32,
                                    },
                                )
                            } else {
                                Err(ImageJsonError::ShapeMismatch)
                            },
                        },
                    },
                },
            }
        },
    }
}

/// The keys of the fields of a JSON object, in order.
pub open spec fn keys_of(fields: Seq<(String, JsonNode)>) -> Seq<Seq<char>> {
    fields.map_values(|f: (String, JsonNode)| f.0@)
}

/// The values of the fields of a JSON object, in order.
pub open spec fn values_of(fields: Seq<(String, JsonNode)>) -> Seq<JsonNode> {
    fields.map_values(|f: (String, JsonNode)| f.1)
}

fn field_named(key: &String) -> (r: Option<ImageField>)
    ensures
        r == field_of(key@),
{
    if same_text(key.as_str(), "Type") {
        Some(ImageField::Type)
    } else if same_text(key.as_str(), "Rank") {
        Some(ImageField::Rank)
    } else if same_text(key.as_str(), "Value") {
        Some(ImageField::Value)
    } else {
        None
    }
}

fn find_field_exec(fields: &Vec<(String, JsonNode)>, from: usize, expected: ImageField) -> (r: Result<
    usize,
    ImageJsonError,
>)
    ensures
        r matches Ok(j) ==> find_field(keys_of(fields@), from as int, expected) == Ok::<
            int,
            ImageJsonError,
        >(j as int) && j < fields@.len(),
        r matches Err(e) ==> find_field(keys_of(fields@), from as int, expected) == Err::<
            int,
            ImageJsonError,
        >(e),
{
    let mut i = from;
    while i < fields.len()
        invariant
            from <= i,
            find_field(keys_of(fields@), from as int, expected) == find_field(
                keys_of(fields@),
                i as int,
                expected,
            ),
        decreases fields@.len() - i,
    {
        match field_named(&fields[i].0) {
            None => {},
            Some(f) => {
                if f == expected {
                    return Ok(i);
                } else {
                    return Err(ImageJsonError::UnexpectedField { expected, got: Some(f) });
                }
            },
        }
        i = i + 1;
    }
    Err(ImageJsonError::UnexpectedField { expected, got: None })
}

/// Reads an image from the fields of a JSON object, in the order they appear: the known
/// fields must come as `Type`, `Rank`, `Value`; other fields are skipped.
pub fn parse_image_json(fields: &Vec<(String, JsonNode)>) -> (r: Result<ImageArray, ImageJsonError>)
    ensures
        match spec_parse_image_json(keys_of(fields@), values_of(fields@)) {
            Ok(m) => r matches Ok(img) && img@ == m,
            Err(e) => r matches Err(x) && x == e,
        },
{
    let n = fields.len();
    let it = match find_field_exec(fields, 0, ImageField::Type) {
        Ok(i) => i,
        Err(e) => {
            return Err(e);
        },
    };
    assert(values_of(fields@)[it as int] == fields@[it as int].1);
    match &fields[it].1 {
        JsonNode::Integer(v) => {
            if *v != 2 {
                return Err(ImageJsonError::UnsupportedType);
            }
        },
        _ => {
            return Err(ImageJsonError::UnsupportedType);
        },
    }
    let ir = match find_field_exec(fields, it + 1, ImageField::Rank) {
        Ok(i) => i,
        Err(e) => {
            return Err(e);
        },
    };
    assert(values_of(fields@)[ir as int] == fields@[ir as int].1);
    let rank = match &fields[ir].1 {
        JsonNode::Integer(v) => {
            if *v == 2 {
                ImageArrayRank::Rank2
            } else if *v == 3 {
                ImageArrayRank::Rank3
            } else {
                return Err(ImageJsonError::InvalidRank);
            }
        },
        _ => {
            return Err(ImageJsonError::InvalidRank);
        },
    };
    let iv = match find_field_exec(fields, ir + 1, ImageField::Value) {
        Ok(i) => i,
        Err(e) => {
            return Err(e);
        },
    };
    let mut st = ArrayWalk::new(rank);
    assert(values_of(fields@)[iv as int] == fields@[iv as int].1);
    match walk_exec(&fields[iv].1, 0, &mut st) {
        Ok(()) => {},
        Err(e) => {
            return Err(ImageJsonError::Shape(e));
        },
    }
    let dim = match rank {
        ImageArrayRank::Rank2 => (st.shape[0], st.shape[1], 1usize),
        ImageArrayRank::Rank3 => (st.shape[0], st.shape[1], st.shape[2]),
    };
    match ImageArray::from_shape_vec(dim, st.data) {
        Some(img) => Ok(img),
        None => Err(ImageJsonError::ShapeMismatch),
    }
}

/// The items of a JSON array; nothing for any other value.
pub open spec fn items_of(n: JsonNode) -> Seq<JsonNode> {
    match n {
        JsonNode::Array(v) => v@,
        _ => Seq::empty(),
    }
}

/// Whether `n` is a JSON array of `len` integers, the pixels `data[start..start + len]`.
pub open spec fn is_pixel_row(n: JsonNode, data: Seq<i32>, start: int, len: nat) -> bool {
    &&& n is Array
    &&& items_of(n).len() == len
    &&& forall|k: int| 0 <= k < len ==> #[trigger] items_of(n)[k] == JsonNode::Integer(data[start + k] as i128)
}

/// Whether `n` is the nested arrays of an image of dimensions `dim` with pixels `data`:
/// for a single colour plane, `dim.0` arrays of `dim.1` pixels; otherwise `dim.0` arrays of
/// `dim.1` arrays of `dim.2` pixels.
pub open spec fn is_pixel_grid(n: JsonNode, dim: (nat, nat, nat), data: Seq<i32>) -> bool {
    &&& n is Array
    &&& items_of(n).len() == dim.0
    &&& forall|x: int|
        0 <= x < dim.0 ==> {
            let row = #[trigger] items_of(n)[x];
            if dim.2 == 1 {
                is_pixel_row(row, data, x * dim.1, dim.1)
            } else {
                &&& row is Array
                &&& items_of(row).len() == dim.1
                &&& forall|y: int|
                    0 <= y < dim.1 ==> is_pixel_row(
                        #[trigger] items_of(row)[y],
                        data,
                        (x * dim.1 + y) * dim.2,
                        dim.2,
                    )
            }
        }
}

proof fn lemma_grid_bound(d0: nat, d1: nat, d2: nat)
    requires
        nonzero_or_one(d0) * nonzero_or_one(d1) * nonzero_or_one(d2) <= isize::MAX,
    ensures
        d0 * d1 <= isize::MAX,
{
    let a = nonzero_or_one(d0);
    let b = nonzero_or_one(d1);
    let c = nonzero_or_one(d2);
    assert(d0 * d1 <= a * b && a * b <= a * b * c) by (nonlinear_arith)
        requires
            d0 <= a,
            d1 <= b,
            c >= 1,
            a >= 1,
            b >= 1,
    ;
}

fn pixel_row(data: &[i32], start: usize, len: usize) -> (r: JsonNode)
    requires
        start + len <= data@.len(),
    ensures
        is_pixel_row(r, data@, start as int, len as nat),
{
    let n = data.len();
    let mut items: Vec<JsonNode> = Vec::new();
    let mut k: usize = 0;
    while k < len
        invariant
            k <= len,
            n == data@.len(),
            start + len <= data@.len(),
            items@.len() == k,
            forall|j: int| 0 <= j < k ==> #[trigger] items@[j] == JsonNode::Integer(data@[start + j] as i128),
        decreases len - k,
    {
        items.push(JsonNode::Integer(data[start + k] as i128));
        k = k + 1;
    }
    JsonNode::Array(items)
}

/// The fields of an image in JSON form: `Type` (`2`), `Rank` (`2` or `3`) and `Value`
/// (the nested arrays of its pixels).
pub fn image_json_fields(img: &ImageArray) -> (r: Vec<(String, JsonNode)>)
    ensures
        keys_of(r@) == seq!["Type"@, "Rank"@, "Value"@],
        values_of(r@)[0] == JsonNode::Integer(2),
        values_of(r@)[1] == JsonNode::Integer(img@.rank().spec_value() as i128),
        is_pixel_grid(values_of(r@)[2], img@.dim, img@.data),
{
    let (d0, d1, d2) = img.dim();
    let data = img.as_slice();
    let n = data.len();
    proof {
        lemma_grid_bound(d0 as nat, d1 as nat, d2 as nat);
    }
    let mut rows: Vec<JsonNode> = Vec::new();
    let mut x: usize = 0;
    while x < d0
        invariant
            x <= d0,
            data@.len() == d0 * d1 * d2,
            n == data@.len(),
            d0 * d1 <= isize::MAX,
            rows@.len() == x,
            forall|i: int|
                0 <= i < x ==> {
                    let row = #[trigger] rows@[i];
                    if d2 == 1 {
                        is_pixel_row(row, data@, i * d1, d1 as nat)
                    } else {
                        &&& row is Array
                        &&& items_of(row).len() == d1
                        &&& forall|y: int|
                            0 <= y < d1 ==> is_pixel_row(
                                #[trigger] items_of(row)[y],
                                data@,
                                (i * d1 + y) * d2,
                                d2 as nat,
                            )
                    }
                },
        decreases d0 - x,
    {
        assert(x * d1 + d1 <= d0 * d1 && (x * d1 + d1) * d2 <= d0 * d1 * d2) by (nonlinear_arith)
            requires
                x < d0,
                d1 >= 0,
                d2 >= 0,
        ;
        if d2 == 1 {
            assert(x * d1 * 1 == x * d1) by (nonlinear_arith);
            let row = pixel_row(data, x * d1, d1);
            rows.push(row);
        } else {
            let mut cells: Vec<JsonNode> = Vec::new();
            let mut y: usize = 0;
            while y < d1
                invariant
                    x < d0,
                    y <= d1,
                    data@.len() == d0 * d1 * d2,
                    n == data@.len(),
                    d0 * d1 <= isize::MAX,
                    x * d1 + d1 <= d0 * d1,
                    (x * d1 + d1) * d2 <= d0 * d1 * d2,
                    cells@.len() == y,
                    forall|j: int|
                        0 <= j < y ==> is_pixel_row(
                            #[trigger] cells@[j],
                            data@,
                            (x * d1 + j) * d2,
                            d2 as nat,
                        ),
                decreases d1 - y,
            {
                assert((x * d1 + y) * d2 + d2 <= (x * d1 + d1) * d2) by (nonlinear_arith)
                    requires
                        y < d1,
                        d2 >= 0,
                ;
                let cell = pixel_row(data, (x * d1 + y) * d2, d2);
                cells.push(cell);
                y = y + 1;
            }
            rows.push(JsonNode::Array(cells));
        }
        x = x + 1;
    }
    let rank = img.rank().into_primitive();
    let mut fields: Vec<(String, JsonNode)> = Vec::new();
    fields.push(("Type".to_owned(), JsonNode::Integer(2)));
    fields.push(("Rank".to_owned(), JsonNode::Integer(rank as i128)));
    fields.push(("Value".to_owned(), JsonNode::Array(rows)));
    assert(keys_of(fields@) =~= seq!["Type"@, "Rank"@, "Value"@]);
    fields
}

proof fn lemma_take_leaves(items: Seq<JsonNode>, data: Seq<i32>, start: int, len: nat, acc: Seq<i32>)
    requires
        items.len() == len,
        0 <= start,
        start + len <= data.len(),
        forall|k: int| 0 <= k < len ==> #[trigger] items[k] == JsonNode::Integer(data[start + k] as i128),
    ensures
        take_leaves(items, acc) == Ok::<Seq<i32>, ShapeError>(acc + data.subrange(start, start + len)),
    decreases len,
{
    if len == 0 {
        assert(acc + data.subrange(start, start) =~= acc);
    } else {
        let rest = items.subrange(1, items.len() as int);
        assert(items[0] == JsonNode::Integer(data[start] as i128));
        assert forall|k: int| 0 <= k < len - 1 implies #[trigger] rest[k] == JsonNode::Integer(
            data[(start + 1) + k] as i128,
        ) by {
            assert(rest[k] == items[k + 1]);
        }
        lemma_take_leaves(rest, data, start + 1, (len - 1) as nat, acc.push(data[start]));
        assert(acc.push(data[start]) + data.subrange(start + 1, start + 1 + (len - 1)) =~= acc
            + data.subrange(start, start + len));
    }
}

proof fn lemma_walk_pixel_rows(
    nodes: Seq<JsonNode>,
    depth: nat,
    st: WalkState,
    data: Seq<i32>,
    base: int,
    len: nat,
)
    requires
        depth + 1 == st.shape.len(),
        len <= usize::MAX,
        0 <= base,
        base + nodes.len() * len <= data.len(),
        forall|i: int| 0 <= i < nodes.len() ==> is_pixel_row(#[trigger] nodes[i], data, base + i * len, len),
        st.first_pass || st.shape[depth as int] == len,
    ensures
        walk_items(nodes, depth, st) == if nodes.len() == 0 {
            Ok::<WalkState, ShapeError>(st)
        } else {
            Ok(
                WalkState {
                    shape: st.shape.update(depth as int, len as usize),
                    first_pass: false,
                    data: st.data + data.subrange(base, base + nodes.len() * len),
                },
            )
        },
    decreases nodes.len(),
{
    if nodes.len() > 0 {
        let n = nodes.len();
        let node = nodes[0];
        assert(0 * len == 0);
        assert(is_pixel_row(node, data, base, len));
        assert(base + len <= base + n * len) by (nonlinear_arith)
            requires
                n >= 1,
                len >= 0,
        ;
        lemma_take_leaves(items_of(node), data, base, len, st.data);
        let s1 = WalkState {
            shape: st.shape.update(depth as int, len as usize),
            first_pass: false,
            data: st.data + data.subrange(base, base + len),
        };
        assert(walk(node, depth, st) == Ok::<WalkState, ShapeError>(s1)) by {
            if !st.first_pass {
                assert(st.shape.update(depth as int, len as usize) =~= st.shape);
            }
        }
        let rest = nodes.subrange(1, n as int);
        assert forall|i: int| 0 <= i < rest.len() implies is_pixel_row(
            #[trigger] rest[i],
            data,
            (base + len) + i * len,
            len,
        ) by {
            assert(rest[i] == nodes[i + 1]);
            assert(base + (i + 1) * len == (base + len) + i * len) by (nonlinear_arith);
        }
        assert((base + len) + (n - 1) * len == base + n * len) by (nonlinear_arith);
        lemma_walk_pixel_rows(rest, depth, s1, data, base + len, len);
        if rest.len() > 0 {
            assert(s1.shape.update(depth as int, len as usize) =~= s1.shape);
            assert(s1.data + data.subrange(base + len, base + n * len) =~= st.data + data.subrange(
                base,
                base + n * len,
            ));
        } else {
            assert(n == 1);
            assert(base + n * len == base + len);
        }
    }
}

proof fn lemma_walk_pixel_planes(
    rows: Seq<JsonNode>,
    st: WalkState,
    data: Seq<i32>,
    base: int,
    d1: nat,
    d2: nat,
)
    requires
        st.shape.len() == 3,
        d1 >= 1,
        d1 <= usize::MAX,
        d2 <= usize::MAX,
        0 <= base,
        base + rows.len() * (d1 * d2) <= data.len(),
        forall|i: int|
            0 <= i < rows.len() ==> {
                let row = #[trigger] rows[i];
                &&& row is Array
                &&& items_of(row).len() == d1
                &&& forall|y: int|
                    0 <= y < d1 ==> is_pixel_row(
                        #[trigger] items_of(row)[y],
                        data,
                        base + i * (d1 * d2) + y * d2,
                        d2,
                    )
            },
        st.first_pass || (st.shape[1] == d1 && st.shape[2] == d2),
    ensures
        walk_items(rows, 1, st) == if rows.len() == 0 {
            Ok::<WalkState, ShapeError>(st)
        } else {
            Ok(
                WalkState {
                    shape: st.shape.update(2, d2 as usize).update(1, d1 as usize),
                    first_pass: false,
                    data: st.data + data.subrange(base, base + rows.len() * (d1 * d2)),
                },
            )
        },
    decreases rows.len(),
{
    if rows.len() > 0 {
        let n = rows.len();
        let row = rows[0];
        let cells = items_of(row);
        assert(base + d1 * d2 <= base + n * (d1 * d2)) by (nonlinear_arith)
            requires
                n >= 1,
                d1 * d2 >= 0,
        ;
        assert(d1 * d2 == d1 * d2 + 0);
        assert forall|y: int| 0 <= y < cells.len() implies is_pixel_row(
            #[trigger] cells[y],
            data,
            base + y * d2,
            d2,
        ) by {
            assert(base + 0 * (d1 * d2) + y * d2 == base + y * d2);
        }
        assert(d1 * d2 == cells.len() * d2);
        lemma_walk_pixel_rows(cells, 2, st, data, base, d2);
        let s2 = WalkState {
            shape: st.shape.update(2, d2 as usize),
            first_pass: false,
            data: st.data + data.subrange(base, base + d1 * d2),
        };
        assert(walk_items(cells, 2, st) == Ok::<WalkState, ShapeError>(s2));
        let s1 = WalkState { shape: s2.shape.update(1, d1 as usize), ..s2 };
        assert(walk(row, 1, st) == Ok::<WalkState, ShapeError>(s1)) by {
            if !st.first_pass {
                assert(s2.shape.update(1, d1 as usize) =~= s2.shape);
            }
        }
        let rest = rows.subrange(1, n as int);
        assert forall|i: int| 0 <= i < rest.len() implies {
            let r = #[trigger] rest[i];
            &&& r is Array
            &&& items_of(r).len() == d1
            &&& forall|y: int|
                0 <= y < d1 ==> is_pixel_row(
                    #[trigger] items_of(r)[y],
                    data,
                    (base + d1 * d2) + i * (d1 * d2) + y * d2,
                    d2,
                )
        } by {
            assert(rest[i] == rows[i + 1]);
            assert(base + (i + 1) * (d1 * d2) == (base + d1 * d2) + i * (d1 * d2)) by (nonlinear_arith);
        }
        assert((base + d1 * d2) + (n - 1) * (d1 * d2) == base + n * (d1 * d2)) by (nonlinear_arith);
        lemma_walk_pixel_planes(rest, s1, data, base + d1 * d2, d1, d2);
        if rest.len() > 0 {
            assert(s1.shape.update(2, d2 as usize).update(1, d1 as usize) =~= s1.shape);
            assert(s1.data + data.subrange(base + d1 * d2, base + n * (d1 * d2)) =~= st.data
                + data.subrange(base, base + n * (d1 * d2)));
        } else {
            assert(n == 1);
            assert(base + n * (d1 * d2) == base + d1 * d2);
        }
    }
}

proof fn lemma_dims_fit(img: ImageArrayModel)
    requires
        img.wf(),
    ensures
        img.dim.0 <= usize::MAX,
        img.dim.1 <= usize::MAX,
        img.dim.2 <= usize::MAX,
{
    let a = nonzero_or_one(img.dim.0);
    let b = nonzero_or_one(img.dim.1);
    let c = nonzero_or_one(img.dim.2);
    assert(a <= a * b * c && b <= a * b * c && c <= a * b * c) by (nonlinear_arith)
        requires
            a >= 1,
            b >= 1,
            c >= 1,
    ;
}

/// Reading back the JSON form of an image gives the image back, its pixels now 32-bit
/// integers.
///
/// This holds for every well-formed image with at least one row and, when it has more
/// than one colour plane, at least one column: the lengths of empty arrays cannot be seen
/// in JSON.
pub proof fn lemma_image_json_round_trip(img: ImageArrayModel, grid: JsonNode)
    requires
        img.wf(),
        img.dim.0 >= 1,
        img.dim.2 == 1 || img.dim.1 >= 1,
        is_pixel_grid(grid, img.dim, img.data),
    ensures
        spec_parse_image_json(
            seq!["Type"@, "Rank"@, "Value"@],
            seq![JsonNode::Integer(2), JsonNode::Integer(img.rank().spec_value() as i128), grid],
        ) == Ok::<ImageArrayModel, ImageJsonError>(
            ImageArrayModel { dim: img.dim, data: img.data, ty: TransmissionElementType::I32 },
        ),
{
    reveal_strlit("Type");
    reveal_strlit("Rank");
    reveal_strlit("Value");
    let keys = seq!["Type"@, "Rank"@, "Value"@];
    assert("Rank"@[0] != "Type"@[0]);
    assert("Value"@[0] != "Type"@[0] && "Value"@[0] != "Rank"@[0]);
    assert(field_of(keys[0]) == Some(ImageField::Type));
    assert(field_of(keys[1]) == Some(ImageField::Rank));
    assert(field_of(keys[2]) == Some(ImageField::Value));
    assert(find_field(keys, 0, ImageField::Type) == Ok::<int, ImageJsonError>(0));
    assert(find_field(keys, 1, ImageField::Rank) == Ok::<int, ImageJsonError>(1));
    assert(find_field(keys, 2, ImageField::Value) == Ok::<int, ImageJsonError>(2));
    lemma_dims_fit(img);
    let (d0, d1, d2) = img.dim;
    let rows = items_of(grid);
    if d2 == 1 {
        let st0 = WalkState { shape: seq![0usize, 0usize], first_pass: true, data: Seq::empty() };
        assert(d0 * d1 * 1 == d0 * d1);
        assert forall|i: int| 0 <= i < rows.len() implies is_pixel_row(
            #[trigger] rows[i],
            img.data,
            0 + i * d1,
            d1,
        ) by {}
        lemma_walk_pixel_rows(rows, 1, st0, img.data, 0, d1);
        assert(Seq::<i32>::empty() + img.data.subrange(0, (d0 * d1) as int) =~= img.data);
        let s = WalkState {
            shape: seq![d0 as usize, d1 as usize],
            first_pass: false,
            data: img.data,
        };
        assert(walk(grid, 0, st0) == Ok::<WalkState, ShapeError>(s)) by {
            assert(st0.shape.update(1, d1 as usize).update(0, d0 as usize) =~= s.shape);
        }
        assert(initial_shape(ImageArrayRank::Rank2) == st0.shape);
        assert(image_dims(ImageArrayRank::Rank2, s.shape) == img.dim);
    } else {
        let st0 = WalkState {
            shape: seq![0usize, 0usize, 1usize],
            first_pass: true,
            data: Seq::empty(),
        };
        assert forall|i: int| 0 <= i < rows.len() implies {
            let row = #[trigger] rows[i];
            &&& row is Array
            &&& items_of(row).len() == d1
            &&& forall|y: int|
                0 <= y < d1 ==> is_pixel_row(
                    #[trigger] items_of(row)[y],
                    img.data,
                    0 + i * (d1 * d2) + y * d2,
                    d2,
                )
        } by {
            let row = rows[i];
            assert forall|y: int| 0 <= y < d1 implies is_pixel_row(
                #[trigger] items_of(row)[y],
                img.data,
                0 + i * (d1 * d2) + y * d2,
                d2,
            ) by {
                assert((i * d1 + y) * d2 == 0 + i * (d1 * d2) + y * d2) by (nonlinear_arith);
            }
        }
        assert(d0 * (d1 * d2) == d0 * d1 * d2) by (nonlinear_arith);
        lemma_walk_pixel_planes(rows, st0, img.data, 0, d1, d2);
        assert(Seq::<i32>::empty() + img.data.subrange(0, (d0 * (d1 * d2)) as int) =~= img.data);
        let s = WalkState {
            shape: seq![d0 as usize, d1 as usize, d2 as usize],
            first_pass: false,
            data: img.data,
        };
        assert(walk(grid, 0, st0) == Ok::<WalkState, ShapeError>(s)) by {
            assert(st0.shape.update(2, d2 as usize).update(1, d1 as usize).update(0, d0 as usize)
                =~= s.shape);
        }
        assert(initial_shape(ImageArrayRank::Rank3) == st0.shape);
        assert(image_dims(ImageArrayRank::Rank3, s.shape) == img.dim);
    }
}

/// The fields of an image array in JSON form are keyed `Type`, `Rank` and `Value`; every
/// other key names no known field.
pub proof fn lemma_image_field_keys(key: Seq<char>)
    ensures
        field_of("Type"@) == Some(ImageField::Type),
        field_of("Rank"@) == Some(ImageField::Rank),
        field_of("Value"@) == Some(ImageField::Value),
        (key != "Type"@ && key != "Rank"@ && key != "Value"@) ==> field_of(key) is None,
{
    reveal_strlit("Type");
    reveal_strlit("Rank");
    reveal_strlit("Value");
    assert("Rank"@[0] != "Type"@[0]);
    assert("Value"@[0] != "Type"@[0] && "Value"@[0] != "Rank"@[0]);
}

} // verus!
