//! `data:` URLs for inline media bytes: the media type and the standard, padded base64
//! encoding of the bytes.

use vstd::prelude::*;

verus! {

/// The standard base64 alphabet.
pub open spec fn base64_alphabet() -> Seq<char> {
    "ABCDEFGHIJKLMNOPQRSTUVWXYZabcdefghijklmnopqrstuvwxyz0123456789+/"@
}

/// The character of one 6-bit group.
pub open spec fn sextet_char(v: int) -> char {
    base64_alphabet()[v]
}

/// Standard base64 of a byte sequence, with `=` padding, three bytes to four characters.
pub open spec fn base64(data: Seq<u8>) -> Seq<char>
    decreases data.len(),
{
    if data.len() == 0 {
        Seq::empty()
    } else if data.len() == 1 {
        let b0 = data[0] as int;
        seq![sextet_char(b0 / 4), sextet_char((b0 % 4) * 16), '=', '=']
    } else if data.len() == 2 {
        let b0 = data[0] as int;
        let b1 = data[1] as int;
        seq![sextet_char(b0 / 4), sextet_char((b0 % 4) * 16 + b1 / 16), sextet_char((b1 % 16) * 4), '=']
    } else {
        let b0 = data[0] as int;
        let b1 = data[1] as int;
        let b2 = data[2] as int;
        seq![
            sextet_char(b0 / 4),
            sextet_char((b0 % 4) * 16 + b1 / 16),
            sextet_char((b1 % 16) * 4 + b2 / 64),
            sextet_char(b2 % 64),
        ] + base64(data.subrange(3, data.len() as int))
    }
}

/// The `data:` URL of some bytes with a media type.
pub open spec fn spec_data_url(media_type: Seq<char>, data: Seq<u8>) -> Seq<char> {
    "data:"@ + media_type + ";base64,"@ + base64(data)
}

proof fn lemma_base64_step(data: Seq<u8>, i: int)
    requires
        0 <= i,
        i + 3 <= data.len(),
    ensures
        base64(data.subrange(i, data.len() as int)) == seq![
            sextet_char(data[i] as int / 4),
            sextet_char((data[i] as int % 4) * 16 + data[i + 1] as int / 16),
            sextet_char((data[i + 1] as int % 16) * 4 + data[i + 2] as int / 64),
            sextet_char(data[i + 2] as int % 64),
        ] + base64(data.subrange(i + 3, data.len() as int)),
{
    let rest = data.subrange(i, data.len() as int);
    assert(rest.subrange(3, rest.len() as int) =~= data.subrange(i + 3, data.len() as int));
}

/// Appends the character of one 6-bit group.
fn push_sextet(out: &mut String, v: u8)
    requires
        v < 64,
    ensures
        final(out)@ == old(out)@.push(sextet_char(v as int)),
{
    let alphabet = "ABCDEFGHIJKLMNOPQRSTUVWXYZabcdefghijklmnopqrstuvwxyz0123456789+/";
    proof {
        reveal_strlit("ABCDEFGHIJKLMNOPQRSTUVWXYZabcdefghijklmnopqrstuvwxyz0123456789+/");
    }
    let c = alphabet.substring_char(v as usize, v as usize + 1);
    out.append(c);
    proof {
        assert(c@ =~= seq![sextet_char(v as int)]);
    }
}

/// Builds the `data:` URL of some bytes with a media type.
pub fn data_url_from_bytes(media_type: &str, data: &[u8]) -> (r: String)
    ensures
        r@ == spec_data_url(media_type@, data@),
{
    let mut out = String::from_str("data:");
    out.append(media_type);
    out.append(";base64,");
    let ghost head = out@;
    let n = data.len();
    proof {
        assert(data@.subrange(0, n as int) =~= data@);
    }
    let mut i: usize = 0;
    while 3 <= n - i
        invariant
            n == data@.len(),
            i <= n,
            head + base64(data@) == out@ + base64(data@.subrange(i as int, n as int)),
        decreases n - i,
    {
        let b0 = data[i];
        let b1 = data[i + 1];
        let b2 = data[i + 2];
        proof {
            lemma_base64_step(data@, i as int);
        }
        let ghost before = out@;
        push_sextet(&mut out, b0 / 4);
        push_sextet(&mut out, (b0 % 4) * 16 + b1 / 16);
        push_sextet(&mut out, (b1 % 16) * 4 + b2 / 64);
        push_sextet(&mut out, b2 % 64);
        proof {
            let chunk = seq![
                sextet_char(b0 as int / 4),
                sextet_char((b0 as int % 4) * 16 + b1 as int / 16),
                sextet_char((b1 as int % 16) * 4 + b2 as int / 64),
                sextet_char(b2 as int % 64),
            ];
            assert(out@ =~= before + chunk);
            assert(before + base64(data@.subrange(i as int, n as int))
                =~= out@ + base64(data@.subrange(i + 3, n as int)));
        }
        i = i + 3;
    }
    let ghost tail = data@.subrange(i as int, n as int);
    let ghost before = out@;
    if n - i == 1 {
        let b0 = data[i];
        push_sextet(&mut out, b0 / 4);
        push_sextet(&mut out, (b0 % 4) * 16);
        out.append("==");
        proof {
            reveal_strlit("==");
            assert(tail.len() == 1 && tail[0] == b0);
            assert(out@ =~= before + base64(tail));
        }
    } else if n - i == 2 {
        let b0 = data[i];
        let b1 = data[i + 1];
        push_sextet(&mut out, b0 / 4);
        push_sextet(&mut out, (b0 % 4) * 16 + b1 / 16);
        push_sextet(&mut out, (b1 % 16) * 4);
        out.append("=");
        proof {
            reveal_strlit("=");
            assert(tail.len() == 2 && tail[0] == b0 && tail[1] == b1);
            assert(out@ =~= before + base64(tail));
        }
    } else {
        proof {
            assert(tail.len() == 0);
            assert(out@ =~= before + base64(tail));
        }
    }
    proof {
        assert(head =~= "data:"@ + media_type@ + ";base64,"@);
        assert(head + base64(data@) =~= out@);
    }
    out
}

} // verus!
