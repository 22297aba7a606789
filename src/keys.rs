use vstd::prelude::*;

verus! {

/// The MIME subtype that `mime_guess` infers from the extension of a path,
/// falling back to `text/plain`.
pub uninterp spec fn mime_subtype_of(path: Seq<char>) -> Seq<char>;

/// A lower-case hexadecimal digit.
pub open spec fn is_lower_hex(c: char) -> bool {
    ('0' <= c && c <= '9') || ('a' <= c && c <= 'f')
}

/// The textual form of a UUID: 36 characters, hyphens at positions 8, 13,
/// 18 and 23, lower-case hexadecimal digits elsewhere.
pub open spec fn is_hyphenated_uuid(s: Seq<char>) -> bool {
    &&& s.len() == 36
    &&& forall|i: int|
        0 <= i < 36 ==> if i == 8 || i == 13 || i == 18 || i == 23 {
            #[trigger] s[i] == '-'
        } else {
            is_lower_hex(s[i])
        }
}

/// The storage key of an uploaded object: a fixed prefix, an identifier and
/// an extension.
pub open spec fn object_key_of(id: Seq<char>, ext: Seq<char>) -> Seq<char> {
    "uploads/"@ + id + "."@ + ext
}

/// Relies on `uuid::Uuid::new_v4` for a random identifier, and on its
/// `Display` impl, which writes the lower-case hyphenated form.
#[verifier::external_body]
fn fresh_uuid() -> (r: String)
    ensures
        is_hyphenated_uuid(r@),
{
    uuid::Uuid::new_v4().to_string()
}

/// Relies on `mime_guess::from_path(..).first_or_text_plain()` and
/// `Mime::subtype`: the subtype guessed from the path's extension. The guess
/// reads no file; a path without any `.` has no extension and gets
/// `text/plain`.
#[verifier::external_body]
fn guess_subtype(path: &str) -> (r: String)
    ensures
        r@ == mime_subtype_of(path@),
        !path@.contains('.') ==> r@ == "plain"@,
{
    mime_guess::from_path(path).first_or_text_plain().subtype().as_str().to_string()
}

/// The storage key for identifier `id` and extension `ext`.
pub fn object_key(id: &str, ext: &str) -> (r: String)
    ensures
        r@ == object_key_of(id@, ext@),
{
    let mut r = String::from_str("uploads/");
    r.append(id);
    r.append(".");
    r.append(ext);
    r
}

/// A new storage key for a file fetched from `file_url`: a fresh random
/// identifier and the extension guessed from the URL's path.
pub fn new_object_key(file_url: &str) -> (r: String)
    ensures
        exists|id: Seq<char>|
            is_hyphenated_uuid(id) && r@ == object_key_of(id, mime_subtype_of(file_url@)),
{
    let ext = guess_subtype(file_url);
    let id = fresh_uuid();
    let r = object_key(id.as_str(), ext.as_str());
    assert(is_hyphenated_uuid(id@) && r@ == object_key_of(id@, mime_subtype_of(file_url@)));
    r
}

/// Two keys built from distinct identifiers of the same length differ,
/// whatever their extensions: keys collide only where the random
/// identifiers do.
pub proof fn lemma_distinct_ids_give_distinct_keys(
    id1: Seq<char>,
    id2: Seq<char>,
    ext1: Seq<char>,
    ext2: Seq<char>,
)
    requires
        id1.len() == id2.len(),
        id1 != id2,
    ensures
        object_key_of(id1, ext1) != object_key_of(id2, ext2),
{
    let k1 = object_key_of(id1, ext1);
    let k2 = object_key_of(id2, ext2);
    let p = "uploads/"@;
    if k1 == k2 {
        assert(id1 =~= k1.subrange(p.len() as int, (p.len() + id1.len()) as int));
        assert(id2 =~= k2.subrange(p.len() as int, (p.len() + id2.len()) as int));
    }
}

} // verus!
