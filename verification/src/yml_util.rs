//! The configuration file's record, the generation of the shared key, and
//! the token that a client derives from its name and timestamp.
use vstd::prelude::*;
use crypto::digest::Digest;
use crypto::md5::Md5;
use rand::rngs::ThreadRng;
use rand::Rng;
use vstd::utf8::encode_utf8;

verus! {

/// The configuration file as it is written to and read from disk.
#[derive(Debug, Clone, PartialEq, Eq)]
pub struct Config {
    pub host: String,
    pub port: u32,
    pub username: String,
    pub password: String,
    pub database: String,
    pub ws_port: i32,
    pub ws_key: String,
}

/// The characters a generated key is drawn from: lower-case ASCII letters
/// and ASCII digits.
pub open spec fn is_key_char(c: char) -> bool {
    ('a' <= c && c <= 'z') || ('0' <= c && c <= '9')
}

#[verifier::external_type_specification]
#[verifier::external_body]
pub struct ExThreadRng(ThreadRng);

/// `rand::thread_rng`: a handle on the thread's random generator. Nothing
/// is stated of its state.
#[verifier::external_body]
fn thread_rng_handle() -> ThreadRng {
    rand::thread_rng()
}

/// `Rng::gen_range` on `0..upper`: a number drawn below `upper`. The
/// generator panics on an empty range, hence `upper > 0`; which number
/// comes out is left open.
#[verifier::external_body]
fn random_below(rng: &mut ThreadRng, upper: usize) -> (r: usize)
    requires
        upper > 0,
    ensures
        r < upper,
{
    rng.gen_range(0..upper)
}

/// A random key of `length` characters, each a lower-case letter or a digit.
pub fn generate_random_key(length: usize) -> (key: String)
    ensures
        key@.len() == length,
        forall|i: int| 0 <= i < length ==> is_key_char(#[trigger] key@[i]),
{
    let mut rng = thread_rng_handle();
    let characters = "abcdefghijklmnopqrstuvwxyz0123456789";
    proof {
        reveal_strlit("abcdefghijklmnopqrstuvwxyz0123456789");
    }
    assert(characters@.len() == 36);
    assert(forall|j: int| 0 <= j < 36 ==> is_key_char(#[trigger] characters@[j]));
    let mut key = String::new();
    let mut i: usize = 0;
    while i < length
        invariant
            i <= length,
            key@.len() == i,
            characters@.len() == 36,
            forall|j: int| 0 <= j < 36 ==> is_key_char(#[trigger] characters@[j]),
            forall|j: int| 0 <= j < i ==> is_key_char(#[trigger] key@[j]),
        decreases length - i,
    {
        let idx = random_below(&mut rng, 36);
        let piece = characters.substring_char(idx, idx + 1);
        let ghost before = key@;
        key.append(piece);
        assert(key@ == before + piece@);
        assert(key@[i as int] == characters@[idx as int]);
        assert(forall|j: int| 0 <= j < i ==> key@[j] == before[j]);
        i = i + 1;
    }
    key
}

#[verifier::external_type_specification]
#[verifier::external_body]
pub struct ExMd5(Md5);

/// The bytes that an MD5 hasher has been fed since it was made.
pub uninterp spec fn md5_fed(h: Md5) -> Seq<u8>;

/// Whether an MD5 hasher has handed out its result (after which it refuses
/// more input).
pub uninterp spec fn md5_finished(h: Md5) -> bool;

/// The MD5 digest of `data`, written as lower-case hexadecimal.
pub uninterp spec fn md5_hex(data: Seq<u8>) -> Seq<char>;

/// `Md5::new`: a hasher that has been fed nothing.
#[verifier::external_body]
fn md5_new() -> (h: Md5)
    ensures
        md5_fed(h) == Seq::<u8>::empty(),
        !md5_finished(h),
{
    Md5::new()
}

/// `Digest::input_str` on an MD5 hasher: feeds the UTF-8 bytes of `input`.
/// The hasher asserts that it has not handed out its result yet.
#[verifier::external_body]
fn md5_input_str(h: &mut Md5, input: &str)
    requires
        !md5_finished(*old(h)),
    ensures
        md5_fed(*final(h)) == md5_fed(*old(h)) + encode_utf8(input@),
        !md5_finished(*final(h)),
{
    h.input_str(input)
}

/// `Digest::result_str` on an MD5 hasher: the digest of what it was fed,
/// in hexadecimal.
#[verifier::external_body]
fn md5_result_str(h: &mut Md5) -> (r: String)
    ensures
        r@ == md5_hex(md5_fed(*old(h))),
        md5_fed(*final(h)) == md5_fed(*old(h)),
        md5_finished(*final(h)),
{
    h.result_str()
}

/// The token that a client with this name sends along with timestamp `t`.
pub open spec fn expected_token(name: Seq<char>, t: Seq<char>) -> Seq<char> {
    md5_hex(encode_utf8(name) + encode_utf8(t))
}

/// The token expected from the player `name` at timestamp `t`: the MD5
/// digest, in hexadecimal, of the name followed by the timestamp text.
pub fn decrypt_name_t(name: String, t: String) -> (token: String)
    ensures
        token@ == expected_token(name@, t@),
{
    let mut h = md5_new();
    md5_input_str(&mut h, name.as_str());
    md5_input_str(&mut h, t.as_str());
    md5_result_str(&mut h)
}

} // verus!
