//! Decisions on HTTP requests and responses: which media types a client accepts, which
//! format a response comes in, and where a device request is routed.

use vstd::prelude::*;
use crate::devices::DeviceType;
use crate::text::{ascii_lower, ascii_lowercase, eq_ignore_ascii_case, same_text, same_text_ignore_ascii_case, utf8_to_string};
use vstd::utf8::{decode_utf8, valid_utf8};

verus! {

/// The essence of a media type: type, subtype and `+suffix`, without parameters.
#[derive(Debug)]
pub struct MediaEssence {
    /// Top-level type (`application`).
    pub ty: String,
    /// Subtype (`imagebytes`).
    pub subty: String,
    /// Suffix after `+`, if any.
    pub suffix: Option<String>,
}

/// The content of a media essence.
pub type EssenceModel = (Seq<char>, Seq<char>, Option<Seq<char>>);

impl View for MediaEssence {
    type V = EssenceModel;

    open spec fn view(&self) -> EssenceModel {
        (
            self.ty@,
            self.subty@,
            match self.suffix {
                Some(s) => Some(s@),
                None => None,
            },
        )
    }
}

/// The items of an `Accept` header value as `mediatype::MediaTypeList` reads them: the
/// essence of each comma-separated media type, or nothing for one that does not parse.
pub uninterp spec fn media_type_list_items(s: Seq<char>) -> Seq<Option<EssenceModel>>;

/// The contents of a list of optional media essences.
pub open spec fn essence_models(items: Seq<Option<MediaEssence>>) -> Seq<Option<EssenceModel>> {
    items.map_values(
        |i: Option<MediaEssence>|
            match i {
                Some(e) => Some(e@),
                None => None,
            },
    )
}

/// The media types listed in an `Accept` header value (`mediatype::MediaTypeList::new`),
/// each reduced to its essence; a media type that does not parse is `None`. The result is
/// claimed to be [`media_type_list_items`] of the text, item for item, that is, to depend on
/// the text alone.
#[verifier::external_body]
fn media_type_items(s: &str) -> (r: Vec<Option<MediaEssence>>)
    ensures
        essence_models(r@) == media_type_list_items(s@),
{
    mediatype::MediaTypeList::new(s).map(|item| match item {
        Ok(mt) => Some(MediaEssence {
            ty: mt.ty.as_str().to_owned(),
            subty: mt.subty.as_str().to_owned(),
            suffix: mt.suffix.map(|n| n.as_str().to_owned()),
        }),
        Err(_) => None,
    }).collect()
}

/// Whether an essence is `application/imagebytes` (names compared ignoring ASCII case,
/// no suffix).
pub open spec fn is_image_bytes_essence(e: EssenceModel) -> bool {
    &&& eq_ignore_ascii_case(e.0, "application"@)
    &&& eq_ignore_ascii_case(e.1, "imagebytes"@)
    &&& e.2 is None
}

/// Whether an essence is `application/imagebytes` (names compared ignoring ASCII case,
/// no suffix).
pub fn image_bytes_essence(e: &MediaEssence) -> (r: bool)
    ensures
        r == is_image_bytes_essence(e@),
{
    let ty = crate::text::chars_of(e.ty.as_str());
    let subty = crate::text::chars_of(e.subty.as_str());
    same_text_ignore_ascii_case(ty.as_slice(), "application") && same_text_ignore_ascii_case(
        subty.as_slice(),
        "imagebytes",
    ) && e.suffix.is_none()
}

/// What one `Accept` header value says of `application/imagebytes`, reading its media types
/// in order: `None` as soon as one does not parse, `Some(true)` at the first
/// `application/imagebytes` (the rest of the value is not read), and `Some(false)` when the
/// value ends without one.
pub open spec fn scan_items(items: Seq<Option<EssenceModel>>) -> Option<bool>
    decreases items.len(),
{
    if items.len() == 0 {
        Some(false)
    } else {
        match items[0] {
            None => None,
            Some(e) => if is_image_bytes_essence(e) {
                Some(true)
            } else {
                scan_items(items.subrange(1, items.len() as int))
            },
        }
    }
}

/// What one `Accept` header value says of `application/imagebytes` (see [`scan_items`]).
pub fn scan_list(items: &Vec<Option<MediaEssence>>) -> (r: Option<bool>)
    ensures
        r == scan_items(essence_models(items@)),
{
    let ghost models = essence_models(items@);
    let mut j: usize = 0;
    assert(models.subrange(0, models.len() as int) =~= models);
    while j < items.len()
        invariant
            j <= items@.len(),
            models == essence_models(items@),
            scan_items(models) == scan_items(models.subrange(j as int, models.len() as int)),
        decreases items@.len() - j,
    {
        let ghost rest = models.subrange(j as int, models.len() as int);
        assert(rest.subrange(1, rest.len() as int) =~= models.subrange(j + 1, models.len() as int));
        assert(rest[0] == models[j as int]);
        match &items[j] {
            Some(e) => {
                assert(models[j as int] == Some(e@));
                if image_bytes_essence(e) {
                    return Some(true);
                }
            },
            None => {
                assert(models[j as int] is None);
                return None;
            },
        }
        j = j + 1;
    }
    assert(models.subrange(models.len() as int, models.len() as int) =~= Seq::<Option<EssenceModel>>::empty());
    Some(false)
}

/// Whether the bytes of a header value are all visible ASCII characters or tabs, so that
/// the value can be read as text.
pub open spec fn is_visible_ascii(bytes: Seq<u8>) -> bool {
    forall|i: int| 0 <= i < bytes.len() ==> (#[trigger] bytes[i] == 9 || (32 <= bytes[i] && bytes[i] < 127))
}

fn visible_ascii(bytes: &[u8]) -> (r: bool)
    ensures
        r == is_visible_ascii(bytes@),
{
    let mut i: usize = 0;
    while i < bytes.len()
        invariant
            i <= bytes@.len(),
            forall|k: int| 0 <= k < i ==> (#[trigger] bytes@[k] == 9 || (32 <= bytes@[k] && bytes@[k] < 127)),
        decreases bytes@.len() - i,
    {
        let b = bytes[i];
        if !(b == 9 || (32 <= b && b < 127)) {
            return false;
        }
        i = i + 1;
    }
    true
}

proof fn lemma_visible_ascii_is_utf8(bytes: Seq<u8>)
    requires
        is_visible_ascii(bytes),
    ensures
        valid_utf8(bytes),
{
    assert(bytes.subrange(0, 0) =~= Seq::<u8>::empty());
    assert(forall|i: int| 0 <= 0 <= i < bytes.len() <= bytes.len() ==> #[trigger] vstd::utf8::is_leading_byte_width_1(bytes[i]));
    vstd::utf8::partial_valid_utf8_extend_ascii_block(bytes, 0, bytes.len() as int);
    assert(bytes.subrange(0, bytes.len() as int) =~= bytes);
}

/// What one `Accept` header value says of `application/imagebytes`: `None` when it is not
/// visible ASCII text or one of its media types does not parse (see [`scan_items`]).
pub open spec fn value_decision(value: Seq<u8>) -> Option<bool> {
    if is_visible_ascii(value) {
        scan_items(media_type_list_items(decode_utf8(value)))
    } else {
        None
    }
}

/// Whether the values of `Accept` headers ask for `application/imagebytes`: every value
/// must be visible ASCII text whose media types parse up to the point read (otherwise the
/// header is invalid and the answer is no), and some value must name
/// `application/imagebytes`.
pub open spec fn spec_accepts_image_bytes(values: Seq<Seq<u8>>) -> bool {
    &&& forall|i: int| 0 <= i < values.len() ==> #[trigger] value_decision(values[i]) is Some
    &&& exists|i: int| 0 <= i < values.len() && #[trigger] value_decision(values[i]) == Some(true)
}

/// Whether the values of `Accept` headers ask for `application/imagebytes` (see
/// [`spec_accepts_image_bytes`]).
pub fn accepts_image_bytes(values: &Vec<Vec<u8>>) -> (r: bool)
    ensures
        r == spec_accepts_image_bytes(values@.map_values(|v: Vec<u8>| v@)),
{
    let ghost vals = values@.map_values(|v: Vec<u8>| v@);
    let mut accepts = false;
    let mut i: usize = 0;
    while i < values.len()
        invariant
            i <= values@.len(),
            vals == values@.map_values(|v: Vec<u8>| v@),
            forall|k: int| 0 <= k < i ==> #[trigger] value_decision(vals[k]) is Some,
            accepts == exists|k: int| 0 <= k < i && #[trigger] value_decision(vals[k]) == Some(true),
        decreases values@.len() - i,
    {
        let v = values[i].as_slice();
        assert(vals[i as int] == v@);
        if !visible_ascii(v) {
            assert(value_decision(vals[i as int]) is None);
            return false;
        }
        proof {
            lemma_visible_ascii_is_utf8(v@);
        }
        let decision = match utf8_to_string(v) {
            Some(text) => {
                let items = media_type_items(text.as_str());
                scan_list(&items)
            },
            None => None,
        };
        assert(decision == value_decision(vals[i as int]));
        match decision {
            None => {
                return false;
            },
            Some(b) => {
                if b {
                    accepts = true;
                }
            },
        }
        i = i + 1;
    }
    accepts
}

/// What a `Content-Type` header value says, as the `mime` crate reads it.
#[derive(Debug)]
pub struct MimeSummary {
    /// The essence: `type/subtype`, lower case, without parameters.
    pub essence: String,
    /// The value of the `charset` parameter, if there is one.
    pub charset: Option<String>,
}

/// The content of a MIME summary.
pub type MimeModel = (Seq<char>, Option<Seq<char>>);

impl View for MimeSummary {
    type V = MimeModel;

    open spec fn view(&self) -> MimeModel {
        (
            self.essence@,
            match self.charset {
                Some(c) => Some(c@),
                None => None,
            },
        )
    }
}

/// What `s.parse::<mime::Mime>()` gives: nothing when `s` is no MIME type, and otherwise
/// the essence (`Mime::essence_str`) and the `charset` parameter (`Mime::get_param`).
pub uninterp spec fn mime_summary(s: Seq<char>) -> Option<MimeModel>;

/// Parses a `Content-Type` header value with the `mime` crate (`str::parse::<Mime>`) and
/// keeps its essence (`Mime::essence_str`) and its `charset` parameter
/// (`Mime::get_param`); `None` when it does not parse. The result is claimed to be
/// [`mime_summary`] of the text, that is, to depend on the text alone.
#[verifier::external_body]
fn parse_mime(s: &str) -> (r: Option<MimeSummary>)
    ensures
        match r {
            Some(m) => mime_summary(s@) == Some(m@),
            None => mime_summary(s@) is None,
        },
{
    match s.parse::<mime::Mime>() {
        Ok(m) => Some(MimeSummary {
            essence: m.essence_str().to_owned(),
            charset: m.get_param(mime::CHARSET).map(|n| n.as_str().to_owned()),
        }),
        Err(_) => None,
    }
}

/// Why the `Content-Type` of a response is refused.
#[derive(Debug)]
pub enum ContentTypeError {
    /// The header value is no MIME type.
    InvalidMime,
    /// The response is not JSON; the essence found is handed back.
    NotJson(String),
    /// The response is JSON in a character set other than UTF-8; it is handed back.
    UnsupportedCharset(String),
}

/// The content of a content-type error.
pub enum ContentTypeFault {
    /// See [`ContentTypeError::InvalidMime`].
    InvalidMime,
    /// See [`ContentTypeError::NotJson`].
    NotJson(Seq<char>),
    /// See [`ContentTypeError::UnsupportedCharset`].
    UnsupportedCharset(Seq<char>),
}

impl View for ContentTypeError {
    type V = ContentTypeFault;

    open spec fn view(&self) -> ContentTypeFault {
        match self {
            ContentTypeError::InvalidMime => ContentTypeFault::InvalidMime,
            ContentTypeError::NotJson(e) => ContentTypeFault::NotJson(e@),
            ContentTypeError::UnsupportedCharset(c) => ContentTypeFault::UnsupportedCharset(c@),
        }
    }
}

/// Whether a response of media type `m` can be read as JSON: essence
/// `application/json`, and no charset or `utf-8`.
pub open spec fn spec_check_json(m: MimeModel) -> Result<(), ContentTypeFault> {
    if m.0 != "application/json"@ {
        Err(ContentTypeFault::NotJson(m.0))
    } else {
        match m.1 {
            None => Ok(()),
            Some(c) => if c == "utf-8"@ {
                Ok(())
            } else {
                Err(ContentTypeFault::UnsupportedCharset(c))
            },
        }
    }
}

/// Whether a response of media type `m` can be read as JSON: essence
/// `application/json`, and no charset or `utf-8`.
pub fn check_json(m: &MimeSummary) -> (r: Result<(), ContentTypeError>)
    ensures
        match spec_check_json(m@) {
            Ok(()) => r is Ok,
            Err(f) => r matches Err(e) && e@ == f,
        },
{
    if !same_text(m.essence.as_str(), "application/json") {
        return Err(ContentTypeError::NotJson(m.essence.clone()));
    }
    match &m.charset {
        None => Ok(()),
        Some(c) => {
            if same_text(c.as_str(), "utf-8") {
                Ok(())
            } else {
                Err(ContentTypeError::UnsupportedCharset(c.clone()))
            }
        },
    }
}

/// Whether a response with `Content-Type` `content_type` can be read as JSON.
pub fn json_content_type(content_type: &str) -> (r: Result<(), ContentTypeError>)
    ensures
        match mime_summary(content_type@) {
            None => r matches Err(ContentTypeError::InvalidMime),
            Some(m) => match spec_check_json(m) {
                Ok(()) => r is Ok,
                Err(f) => r matches Err(e) && e@ == f,
            },
        },
{
    match parse_mime(content_type) {
        None => Err(ContentTypeError::InvalidMime),
        Some(m) => check_json(&m),
    }
}

/// The format an image response comes in.
#[derive(Debug, Clone, Copy, PartialEq, Eq, Structural)]
pub enum ImageResponseFormat {
    /// The binary `application/imagebytes` format.
    ImageBytes,
    /// JSON.
    Json,
}

/// The format of an image response of media type `m`: `application/imagebytes`, and
/// otherwise JSON when it can be read as JSON.
pub open spec fn spec_image_response_format(m: MimeModel) -> Result<ImageResponseFormat, ContentTypeFault> {
    if m.0 == "application/imagebytes"@ {
        Ok(ImageResponseFormat::ImageBytes)
    } else {
        match spec_check_json(m) {
            Ok(()) => Ok(ImageResponseFormat::Json),
            Err(f) => Err(f),
        }
    }
}

/// The format of an image response of media type `m`: `application/imagebytes`, and
/// otherwise JSON when it can be read as JSON.
pub fn image_response_format(m: &MimeSummary) -> (r: Result<ImageResponseFormat, ContentTypeError>)
    ensures
        match spec_image_response_format(m@) {
            Ok(f) => r matches Ok(g) && g == f,
            Err(f) => r matches Err(e) && e@ == f,
        },
{
    if same_text(m.essence.as_str(), "application/imagebytes") {
        return Ok(ImageResponseFormat::ImageBytes);
    }
    match check_json(m) {
        Ok(()) => Ok(ImageResponseFormat::Json),
        Err(e) => Err(e),
    }
}

/// The format of an image response with `Content-Type` `content_type`.
pub fn image_content_type(content_type: &str) -> (r: Result<ImageResponseFormat, ContentTypeError>)
    ensures
        match mime_summary(content_type@) {
            None => r matches Err(ContentTypeError::InvalidMime),
            Some(m) => match spec_image_response_format(m) {
                Ok(f) => r matches Ok(g) && g == f,
                Err(f) => r matches Err(e) && e@ == f,
            },
        },
{
    match parse_mime(content_type) {
        None => Err(ContentTypeError::InvalidMime),
        Some(m) => image_response_format(&m),
    }
}

/// Whether the client transaction ID a response carries differs from the one its request
/// was sent with (a response may carry none).
pub fn transaction_id_mismatch(sent: u32, received: Option<u32>) -> (r: bool)
    ensures
        r == (received matches Some(id) && id != sent),
{
    match received {
        Some(id) => id != sent,
        None => false,
    }
}

/// Where a device request goes.
#[derive(Debug)]
pub struct DeviceRoute {
    /// The action to run.
    pub action: String,
    /// Whether the camera's image is to be sent in the `ImageBytes` format.
    pub image_bytes: bool,
}

/// The action a request for `action` on a device of category `ty` runs: a camera's
/// `imagearrayvariant` runs as `imagearray`.
pub open spec fn spec_routed_action(ty: DeviceType, action: Seq<char>) -> Seq<char> {
    if ty == DeviceType::Camera && action == "imagearrayvariant"@ {
        "imagearray"@
    } else {
        action
    }
}

/// Routes a request for `action` on a device of category `ty`: a camera's
/// `imagearrayvariant` is served as `imagearray`, and a camera's image asked for with `GET`
/// by a client that accepts `application/imagebytes` is sent in that format.
pub fn route_device_action(ty: DeviceType, is_get: bool, action: String, accepts_image_bytes: bool) -> (r: DeviceRoute)
    ensures
        r.action@ == spec_routed_action(ty, action@),
        r.image_bytes == (is_get && ty == DeviceType::Camera && spec_routed_action(ty, action@)
            == "imagearray"@ && accepts_image_bytes),
{
    let is_camera = ty == DeviceType::Camera;
    let action = if is_camera && same_text(action.as_str(), "imagearrayvariant") {
        "imagearray".to_owned()
    } else {
        action
    };
    let image_bytes = is_get && is_camera && same_text(action.as_str(), "imagearray") && accepts_image_bytes;
    DeviceRoute { action, image_bytes }
}

/// The transaction IDs a request is sent with.
#[derive(Debug, Clone, Copy, PartialEq, Eq, Structural)]
pub struct RequestTransaction {
    /// The number of this request among those sent (never zero).
    pub client_transaction_id: u32,
    /// The ID of the client (never zero).
    pub client_id: u32,
}

/// Numbers requests: the first number it hands out is 1, and each one after is
/// one more than the one before, so no number is handed out twice and none is zero.
#[derive(Debug)]
pub struct TransactionCounter {
    issued: u32,
}

impl View for TransactionCounter {
    type V = nat;

    /// How many numbers the counter has handed out, which is also the last one.
    closed spec fn view(&self) -> nat {
        self.issued as nat
    }
}

impl TransactionCounter {
    /// A counter that has handed out no number yet.
    pub fn new() -> (r: Self)
        ensures
            r@ == 0,
    {
        TransactionCounter { issued: 0 }
    }

    /// How many numbers the counter has handed out.
    pub fn issued(&self) -> (r: u32)
        ensures
            r == self@,
    {
        self.issued
    }

    /// Hands out the next number: one more than the last, starting at 1.
    pub fn next_id(&mut self) -> (id: u32)
        requires
            old(self)@ < u32::MAX,
        ensures
            id == next_number(old(self)@),
            final(self)@ == id,
            id != 0,
    {
        self.issued = self.issued + 1;
        self.issued
    }
}

/// The number a counter hands out after having handed out `issued` numbers.
pub open spec fn next_number(issued: nat) -> nat {
    issued + 1
}

/// The numbers one counter hands out never repeat, grow with each call and are never zero:
/// of two calls, the later one (made with more numbers already handed out) gets the greater
/// number.
pub proof fn lemma_transaction_ids_increase(earlier: nat, later: nat)
    requires
        earlier < later,
    ensures
        0 < next_number(earlier) < next_number(later),
{
}

impl RequestTransaction {
    /// The transaction IDs of the next request of client `client_id`: its transaction
    /// number is the next one of `counter`.
    pub fn new(client_id: u32, counter: &mut TransactionCounter) -> (r: Self)
        requires
            client_id != 0,
            old(counter)@ < u32::MAX,
        ensures
            r.client_id == client_id,
            r.client_transaction_id == next_number(old(counter)@),
            final(counter)@ == next_number(old(counter)@),
    {
        let client_transaction_id = counter.next_id();
        RequestTransaction { client_transaction_id, client_id }
    }
}

/// The names of a list of names.
pub open spec fn name_views(names: Seq<String>) -> Seq<Seq<char>> {
    names.map_values(|n: String| n@)
}

/// The value of the last field named `name` among `fields`, if any.
pub open spec fn last_value_of<V>(fields: Seq<(String, V)>, name: Seq<char>) -> Option<V>
    decreases fields.len(),
{
    if fields.len() == 0 {
        None
    } else if fields.last().0@ == name {
        Some(fields.last().1)
    } else {
        last_value_of(fields.drop_last(), name)
    }
}

/// The fields whose key is none of `names`, in order.
pub open spec fn other_fields<V>(fields: Seq<(String, V)>, names: Seq<Seq<char>>) -> Seq<(Seq<char>, V)>
    decreases fields.len(),
{
    if fields.len() == 0 {
        Seq::empty()
    } else {
        let rest = other_fields(fields.drop_last(), names);
        if names.contains(fields.last().0@) {
            rest
        } else {
            rest.push((fields.last().0@, fields.last().1))
        }
    }
}

/// The fields of a list, with each key taken by its text.
pub open spec fn field_views<V>(fields: Seq<(String, V)>) -> Seq<(Seq<char>, V)> {
    fields.map_values(|f: (String, V)| (f.0@, f.1))
}

fn name_position(names: &Vec<String>, key: &String) -> (r: Option<usize>)
    ensures
        match r {
            Some(i) => i < names@.len() && names@[i as int]@ == key@,
            None => !name_views(names@).contains(key@),
        },
{
    let mut i: usize = 0;
    while i < names.len()
        invariant
            i <= names@.len(),
            forall|j: int| 0 <= j < i ==> names@[j]@ != key@,
        decreases names@.len() - i,
    {
        if same_text(names[i].as_str(), key.as_str()) {
            return Some(i);
        }
        i = i + 1;
    }
    proof {
        if name_views(names@).contains(key@) {
            let j = choose|j: int| 0 <= j < name_views(names@).len() && name_views(names@)[j] == key@;
            assert(names@[j]@ == key@);
        }
    }
    None
}

/// Splits the fields of an object between a small part with the fields `names` and the
/// rest: the small part gets, for each name, the value of the last field of that name; the
/// rest keeps every other field, in order.
pub fn split_fields<V>(fields: Vec<(String, V)>, names: &Vec<String>) -> (r: (Vec<Option<V>>, Vec<(String, V)>))
    requires
        forall|i: int, j: int|
            0 <= i < names@.len() && 0 <= j < names@.len() && i != j ==> names@[i]@ != names@[j]@,
    ensures
        r.0@.len() == names@.len(),
        forall|i: int| 0 <= i < names@.len() ==> #[trigger] r.0@[i] == last_value_of(fields@, names@[i]@),
        field_views(r.1@) == other_fields(fields@, name_views(names@)),
{
    let mut small: Vec<Option<V>> = Vec::new();
    let mut k: usize = 0;
    while k < names.len()
        invariant
            k <= names@.len(),
            small@.len() == k,
            forall|i: int| 0 <= i < k ==> #[trigger] small@[i] == None::<V>,
        decreases names@.len() - k,
    {
        small.push(None);
        k = k + 1;
    }
    let ghost all = fields@;
    let total = fields.len();
    let mut input = fields;
    let mut rest: Vec<(String, V)> = Vec::new();
    let mut n: usize = 0;
    assert(all.take(0) =~= Seq::<(String, V)>::empty());
    while input.len() > 0
        invariant
            n + input@.len() == all.len(),
            all.len() == total,
            input@ == all.subrange(n as int, all.len() as int),
            small@.len() == names@.len(),
            forall|i: int| 0 <= i < names@.len() ==> #[trigger] small@[i] == last_value_of(all.take(n as int), names@[i]@),
            field_views(rest@) == other_fields(all.take(n as int), name_views(names@)),
            forall|i: int, j: int|
                0 <= i < names@.len() && 0 <= j < names@.len() && i != j ==> names@[i]@ != names@[j]@,
        decreases input@.len(),
    {
        let (key, value) = input.remove(0);
        let ghost prefix = all.take(n + 1);
        assert(prefix.drop_last() =~= all.take(n as int));
        assert(prefix.last() == all[n as int]);
        assert(all[n as int] == (key, value));
        match name_position(names, &key) {
            Some(p) => {
                proof {
                    assert(name_views(names@)[p as int] == key@);
                    assert(name_views(names@).contains(key@));
                }
                small.set(p, Some(value));
                proof {
                    assert forall|i: int| 0 <= i < names@.len() implies #[trigger] small@[i]
                        == last_value_of(prefix, names@[i]@) by {
                        if i != p {
                            assert(names@[i]@ != key@);
                        }
                    }
                }
            },
            None => {
                let ghost before = rest@;
                rest.push((key, value));
                proof {
                    assert(field_views(rest@) =~= field_views(before).push((key@, value)));
                    assert forall|i: int| 0 <= i < names@.len() implies #[trigger] small@[i]
                        == last_value_of(prefix, names@[i]@) by {
                        assert(name_views(names@)[i] == names@[i]@);
                    }
                }
            },
        }
        n = n + 1;
        assert(input@ =~= all.subrange(n as int, all.len() as int));
    }
    assert(all.take(n as int) =~= all);
    (small, rest)
}

/// Comparing ignoring ASCII case with a text already in lower case is comparing the
/// lower-cased text with it.
proof fn lemma_ignore_case_against_lower(a: Seq<char>, lower: Seq<char>)
    requires
        ascii_lowercase(lower) == lower,
    ensures
        eq_ignore_ascii_case(a, lower) <==> ascii_lowercase(a) == lower,
{
    if eq_ignore_ascii_case(a, lower) {
        assert forall|i: int| 0 <= i < a.len() implies ascii_lowercase(a)[i] == lower[i] by {
            assert(ascii_lowercase(lower)[i] == ascii_lower(lower[i]));
        }
        assert(ascii_lowercase(a) =~= lower);
    }
    if ascii_lowercase(a) == lower {
        assert forall|i: int| 0 <= i < a.len() implies ascii_lower(a[i]) == ascii_lower(lower[i]) by {
            assert(ascii_lowercase(a)[i] == ascii_lower(a[i]));
            assert(ascii_lowercase(lower)[i] == ascii_lower(lower[i]));
        }
    }
}

/// The media types of the protocol: a client accepts image bytes when it names
/// `application/imagebytes` in any letter case and without suffix; a response is read as
/// image bytes exactly when its essence is `application/imagebytes`, and as JSON when its
/// essence is `application/json` with no charset or the charset `utf-8`; every other
/// response is refused.
pub proof fn lemma_media_types(m: MimeModel, e: EssenceModel)
    ensures
        is_image_bytes_essence(e) <==> (ascii_lowercase(e.0) == "application"@
            && ascii_lowercase(e.1) == "imagebytes"@ && e.2 is None),
        spec_check_json(m) is Ok <==> (m.0 == "application/json"@ && (m.1 is None || m.1
            == Some("utf-8"@))),
        spec_image_response_format(m) == Ok::<ImageResponseFormat, ContentTypeFault>(
            ImageResponseFormat::ImageBytes,
        ) <==> m.0 == "application/imagebytes"@,
        spec_image_response_format(m) is Err <==> (m.0 != "application/imagebytes"@
            && spec_check_json(m) is Err),
{
    reveal_strlit("application");
    reveal_strlit("imagebytes");
    reveal_strlit("application/json");
    reveal_strlit("application/imagebytes");
    assert(ascii_lowercase("application"@) =~= "application"@);
    assert(ascii_lowercase("imagebytes"@) =~= "imagebytes"@);
    lemma_ignore_case_against_lower(e.0, "application"@);
    lemma_ignore_case_against_lower(e.1, "imagebytes"@);
    assert("application/json"@ != "application/imagebytes"@) by {
        assert("application/json"@.len() != "application/imagebytes"@.len());
    }
}

} // verus!
