//! Request signing: the text that is signed, and its keyed digest.

use crate::bindings::{md5_digest, md5_of};
use crate::text::{hex_digit, hex_lower, hex_string, is_lower_hex, lemma_hex_lower_digits};
use vstd::prelude::*;
use vstd::utf8::{encode_utf8, encode_utf8_decode_utf8};

verus! {

/// One named parameter of a remote call.
#[derive(Debug, PartialEq, Eq)]
pub struct Param {
    pub name: String,
    pub value: String,
}

impl View for Param {
    type V = (Seq<char>, Seq<char>);

    open spec fn view(&self) -> (Seq<char>, Seq<char>) {
        (self.name@, self.value@)
    }
}

impl DeepView for Param {
    type V = (Seq<char>, Seq<char>);

    open spec fn deep_view(&self) -> (Seq<char>, Seq<char>) {
        (self.name@, self.value@)
    }
}

impl Param {
    /// Makes a parameter of a name and a value.
    pub fn new(name: &str, value: &str) -> (made: Self)
        ensures
            made.deep_view() == (name@, value@),
    {
        Param { name: String::from_str(name), value: String::from_str(value) }
    }
}

impl Clone for Param {
    fn clone(&self) -> (copy: Self)
        ensures
            copy == *self,
    {
        Param { name: self.name.clone(), value: self.value.clone() }
    }
}

/// Whether a parameter of this name takes part in the signature. The
/// signature itself and the output format do not.
pub open spec fn is_signed_name(name: Seq<char>) -> bool {
    name != "api_sig"@ && name != "format"@
}

/// What one parameter adds to the signed text: its name directly followed by
/// its value, or nothing where the parameter is not signed.
pub open spec fn signing_piece(param: (Seq<char>, Seq<char>)) -> Seq<char> {
    if is_signed_name(param.0) {
        param.0 + param.1
    } else {
        Seq::empty()
    }
}

/// The pieces of the parameters, in the order given, with nothing between them.
pub open spec fn signing_text(params: Seq<(Seq<char>, Seq<char>)>) -> Seq<char>
    decreases params.len(),
{
    if params.len() == 0 {
        Seq::empty()
    } else {
        signing_text(params.drop_last()) + signing_piece(params.last())
    }
}

/// The text whose digest is the signature: the signed text, then the secret.
pub open spec fn signing_base(secret: Seq<char>, params: Seq<(Seq<char>, Seq<char>)>) -> Seq<
    char,
> {
    signing_text(params) + secret
}

/// The lowercase hexadecimal MD5 digest of the UTF-8 bytes of `text`.
pub open spec fn md5_hex(text: Seq<char>) -> Seq<char> {
    hex_lower(md5_digest(encode_utf8(text)))
}

/// The signature of `params` under `secret`.
pub open spec fn signature_of(secret: Seq<char>, params: Seq<(Seq<char>, Seq<char>)>) -> Seq<
    char,
> {
    md5_hex(signing_base(secret, params))
}

/// Hashes `plaintext` with MD5 and renders the digest in lowercase hexadecimal.
pub fn md5_hash(plaintext: &str) -> (digest: String)
    ensures
        digest@ == md5_hex(plaintext@),
        digest@.len() == 32,
        forall|i: int| 0 <= i < 32 ==> is_lower_hex(#[trigger] digest@[i]),
{
    let raw: [u8; 16] = md5_of(plaintext.as_bytes());
    proof {
        lemma_hex_lower_digits(raw@);
    }
    hex_string(raw.as_slice())
}

/// Tells whether a parameter of this name takes part in the signature.
pub fn is_signed(name: &String) -> (signed: bool)
    ensures
        signed == is_signed_name(name@),
{
    let signature_name: String = String::from_str("api_sig");
    let format_name: String = String::from_str("format");
    !(*name == signature_name) && !(*name == format_name)
}

/// Builds the text that is signed for `params` under `secret`.
pub fn signature_base(secret: &str, params: &Vec<Param>) -> (base: String)
    ensures
        base@ == signing_base(secret@, params.deep_view()),
{
    let ghost all: Seq<(Seq<char>, Seq<char>)> = params.deep_view();
    let mut base: String = String::new();
    let mut i: usize = 0;
    while i < params.len()
        invariant
            i <= params.len(),
            all == params.deep_view(),
            base@ == signing_text(all.take(i as int)),
        decreases params.len() - i,
    {
        let param: &Param = &params[i];
        if is_signed(&param.name) {
            base.append(param.name.as_str());
            base.append(param.value.as_str());
        }
        proof {
            let next: Seq<(Seq<char>, Seq<char>)> = all.take(i + 1);
            assert(next.drop_last() =~= all.take(i as int));
            assert(next.last() == (param.name@, param.value@));
        }
        i += 1;
    }
    proof {
        assert(all.take(i as int) =~= all);
    }
    base.append(secret);
    base
}

/// Signs `params` under `secret`: the lowercase hexadecimal MD5 digest of the
/// signed text followed by the secret. The parameters are taken in the order
/// given; the service fixes that order for each call.
pub fn sign(secret: &str, params: &Vec<Param>) -> (signature: String)
    ensures
        signature@ == signature_of(secret@, params.deep_view()),
        signature@.len() == 32,
        forall|i: int| 0 <= i < 32 ==> is_lower_hex(#[trigger] signature@[i]),
{
    let base: String = signature_base(secret, params);
    md5_hash(base.as_str())
}

/// The signed text of two parameter lists joined is the two signed texts joined.
pub proof fn lemma_signing_text_concat(
    front: Seq<(Seq<char>, Seq<char>)>,
    back: Seq<(Seq<char>, Seq<char>)>,
)
    ensures
        signing_text(front + back) == signing_text(front) + signing_text(back),
    decreases back.len(),
{
    if back.len() == 0 {
        assert(front + back =~= front);
        assert(signing_text(front) + signing_text(back) =~= signing_text(front));
    } else {
        lemma_signing_text_concat(front, back.drop_last());
        assert((front + back).drop_last() =~= front + back.drop_last());
        assert((front + back).last() == back.last());
        assert(signing_text(front + back) =~= signing_text(front) + signing_text(back));
    }
}

/// Adding a parameter at the end adds its piece at the end of the signed text.
pub proof fn lemma_signing_text_push(
    params: Seq<(Seq<char>, Seq<char>)>,
    param: (Seq<char>, Seq<char>),
)
    ensures
        signing_text(params.push(param)) == signing_text(params) + signing_piece(param),
{
    assert(params.push(param).drop_last() =~= params);
    assert(params.push(param).last() == param);
}

/// The names that the two signed calls sign are signed names.
pub proof fn lemma_signed_names()
    ensures
        is_signed_name("api_key"@),
        is_signed_name("artist"@),
        is_signed_name("method"@),
        is_signed_name("sk"@),
        is_signed_name("timestamp"@),
        is_signed_name("token"@),
        is_signed_name("track"@),
        !is_signed_name("api_sig"@),
        !is_signed_name("format"@),
{
    reveal_strlit("api_sig");
    reveal_strlit("format");
    reveal_strlit("api_key");
    reveal_strlit("artist");
    reveal_strlit("method");
    reveal_strlit("sk");
    reveal_strlit("timestamp");
    reveal_strlit("token");
    reveal_strlit("track");
    assert("api_sig"@.len() == 7 && "format"@.len() == 6);
    assert("api_key"@.len() == 7 && "api_key"@[4] != "api_sig"@[4]);
    assert("artist"@.len() == 6 && "artist"@[0] != "format"@[0]);
    assert("method"@.len() == 6 && "method"@[0] != "format"@[0]);
    assert("sk"@.len() == 2);
    assert("timestamp"@.len() == 9);
    assert("token"@.len() == 5);
    assert("track"@.len() == 5);
}

/// Two texts that differ only in a middle part are different texts.
proof fn lemma_middle_differs(head: Seq<char>, left: Seq<char>, right: Seq<char>, tail: Seq<char>)
    requires
        left != right,
    ensures
        head + left + tail != head + right + tail,
{
    if head + left + tail == head + right + tail {
        assert(left.len() == right.len()) by {
            assert((head + left + tail).len() == (head + right + tail).len());
        }
        assert forall|k: int| 0 <= k < left.len() implies left[k] == right[k] by {
            assert((head + left + tail)[head.len() + k] == left[k]);
            assert((head + right + tail)[head.len() + k] == right[k]);
        }
        assert(left =~= right);
    }
}

/// The signed text of a list, split around the parameter at `index`.
proof fn lemma_signing_text_split(params: Seq<(Seq<char>, Seq<char>)>, index: int)
    requires
        0 <= index < params.len(),
    ensures
        signing_text(params) == signing_text(params.take(index)) + signing_piece(params[index])
            + signing_text(params.skip(index + 1)),
{
    let one: Seq<(Seq<char>, Seq<char>)> = seq![params[index]];
    assert(params =~= params.take(index) + one + params.skip(index + 1));
    lemma_signing_text_concat(params.take(index) + one, params.skip(index + 1));
    lemma_signing_text_concat(params.take(index), one);
    assert(one.drop_last() =~= Seq::<(Seq<char>, Seq<char>)>::empty());
    assert(signing_text(one) =~= signing_piece(params[index])) by {
        assert(signing_text(one.drop_last()) =~= Seq::<char>::empty());
        assert(one.last() == params[index]);
    }
}

/// The hexadecimal rendering loses nothing: equal renderings come from equal
/// bytes.
pub proof fn lemma_hex_lower_injective(left: Seq<u8>, right: Seq<u8>)
    requires
        hex_lower(left) == hex_lower(right),
    ensures
        left == right,
{
    assert(left.len() == right.len()) by {
        assert(hex_lower(left).len() == 2 * left.len());
        assert(hex_lower(right).len() == 2 * right.len());
    }
    assert forall|k: int| 0 <= k < left.len() implies left[k] == right[k] by {
        let a: int = left[k] as int;
        let b: int = right[k] as int;
        assert((2 * k) % 2 == 0 && (2 * k) / 2 == k);
        assert((2 * k + 1) % 2 == 1 && (2 * k + 1) / 2 == k);
        assert(hex_lower(left)[2 * k] == hex_digit(a / 16));
        assert(hex_lower(right)[2 * k] == hex_digit(b / 16));
        assert(hex_lower(left)[2 * k + 1] == hex_digit(a % 16));
        assert(hex_lower(right)[2 * k + 1] == hex_digit(b % 16));
        assert(a / 16 == b / 16);
        assert(a % 16 == b % 16);
    }
    assert(left =~= right);
}

/// Two signatures agree only where MD5 gives the two signed texts the same
/// digest.
pub proof fn lemma_equal_signatures_equal_digests(left: Seq<char>, right: Seq<char>)
    ensures
        md5_hex(left) == md5_hex(right) ==> md5_digest(encode_utf8(left)) == md5_digest(
            encode_utf8(right),
        ),
{
    if md5_hex(left) == md5_hex(right) {
        lemma_hex_lower_injective(md5_digest(encode_utf8(left)), md5_digest(encode_utf8(right)));
    }
}

/// Different texts are different bytes in UTF-8.
pub proof fn lemma_utf8_injective(left: Seq<char>, right: Seq<char>)
    requires
        left != right,
    ensures
        encode_utf8(left) != encode_utf8(right),
{
    encode_utf8_decode_utf8(left);
    encode_utf8_decode_utf8(right);
}

/// No signed parameter is ignored: giving one of them another value changes
/// the bytes that are hashed, and with them the signature, unless MD5 maps
/// the two byte strings to one digest.
pub proof fn lemma_signature_depends_on_value(
    secret: Seq<char>,
    params: Seq<(Seq<char>, Seq<char>)>,
    index: int,
    value: Seq<char>,
)
    requires
        0 <= index < params.len(),
        is_signed_name(params[index].0),
        value != params[index].1,
    ensures
        ({
            let changed = params.update(index, (params[index].0, value));
            let before = signing_base(secret, params);
            let after = signing_base(secret, changed);
            &&& before != after
            &&& encode_utf8(before) != encode_utf8(after)
            &&& md5_digest(encode_utf8(before)) != md5_digest(encode_utf8(after))
                ==> signature_of(secret, params) != signature_of(secret, changed)
        }),
{
    let name = params[index].0;
    let changed = params.update(index, (name, value));
    let before = signing_base(secret, params);
    let after = signing_base(secret, changed);
    lemma_signing_text_split(params, index);
    lemma_signing_text_split(changed, index);
    assert(changed.take(index) =~= params.take(index));
    assert(changed.skip(index + 1) =~= params.skip(index + 1));
    let head = signing_text(params.take(index)) + name;
    let tail = signing_text(params.skip(index + 1)) + secret;
    assert(before =~= head + params[index].1 + tail);
    assert(after =~= head + value + tail);
    lemma_middle_differs(head, params[index].1, value, tail);
    lemma_utf8_injective(before, after);
    if signature_of(secret, params) == signature_of(secret, changed) {
        lemma_equal_signatures_equal_digests(before, after);
    }
}

/// The secret is part of what is signed: another secret changes the bytes
/// that are hashed, and with them the signature, unless MD5 maps the two byte
/// strings to one digest.
pub proof fn lemma_signature_depends_on_secret(
    secret: Seq<char>,
    other: Seq<char>,
    params: Seq<(Seq<char>, Seq<char>)>,
)
    requires
        secret != other,
    ensures
        signing_base(secret, params) != signing_base(other, params),
        encode_utf8(signing_base(secret, params)) != encode_utf8(signing_base(other, params)),
        md5_digest(encode_utf8(signing_base(secret, params))) != md5_digest(
            encode_utf8(signing_base(other, params)),
        ) ==> signature_of(secret, params) != signature_of(other, params),
{
    let before = signing_base(secret, params);
    let after = signing_base(other, params);
    let none = Seq::<char>::empty();
    assert(before =~= signing_text(params) + secret + none);
    assert(after =~= signing_text(params) + other + none);
    lemma_middle_differs(signing_text(params), secret, other, none);
    lemma_utf8_injective(before, after);
    if signature_of(secret, params) == signature_of(other, params) {
        lemma_equal_signatures_equal_digests(before, after);
    }
}

/// The signature and the output format are not signed: whatever value a
/// parameter of either name carries, the signature is the same.
pub proof fn lemma_signature_ignores_unsigned(
    secret: Seq<char>,
    params: Seq<(Seq<char>, Seq<char>)>,
    index: int,
    value: Seq<char>,
)
    requires
        0 <= index < params.len(),
        !is_signed_name(params[index].0),
    ensures
        signature_of(secret, params.update(index, (params[index].0, value))) == signature_of(
            secret,
            params,
        ),
{
    let changed = params.update(index, (params[index].0, value));
    lemma_signing_text_split(params, index);
    lemma_signing_text_split(changed, index);
    assert(changed.take(index) =~= params.take(index));
    assert(changed.skip(index + 1) =~= params.skip(index + 1));
}

} // verus!
