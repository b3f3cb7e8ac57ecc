//! Outbound control frames: single-line JSON objects with their fields in
//! key order, string values escaped as canonical JSON escapes them.

use vstd::prelude::*;

use crate::numfmt::dec_int;
use crate::numfmt::i64_to_dec;
use crate::strutil::hex_digit_char;
use crate::strutil::hex_digit_char_exec;
use crate::strutil::push_char;

verus! {

/// How one character is written inside a JSON string: quote and backslash
/// get a backslash escape, the named control characters their short forms,
/// the remaining control characters a `\u00` escape, and everything else
/// stands as itself.
pub open spec fn escape_char(c: char) -> Seq<char> {
    if c == '"' {
        seq!['\\', '"']
    } else if c == '\\' {
        seq!['\\', '\\']
    } else if c == '\u{8}' {
        seq!['\\', 'b']
    } else if c == '\t' {
        seq!['\\', 't']
    } else if c == '\n' {
        seq!['\\', 'n']
    } else if c == '\u{c}' {
        seq!['\\', 'f']
    } else if c == '\r' {
        seq!['\\', 'r']
    } else if (c as u32) < 0x20 {
        seq!['\\', 'u', '0', '0', hex_digit_char(c as int / 16), hex_digit_char(c as int % 16)]
    } else {
        seq![c]
    }
}

/// A text escaped for use inside a JSON string literal.
pub open spec fn escape_json(s: Seq<char>) -> Seq<char>
    decreases s.len(),
{
    if s.len() == 0 {
        Seq::empty()
    } else {
        escape_char(s[0]).add(escape_json(s.drop_first()))
    }
}

pub proof fn lemma_escape_json_push(s: Seq<char>, c: char)
    ensures
        escape_json(s.push(c)) == escape_json(s).add(escape_char(c)),
    decreases s.len(),
{
    if s.len() == 0 {
        assert(s.push(c)[0] == c);
        assert(s.push(c).drop_first() =~= Seq::<char>::empty());
        assert(escape_json(s.push(c)) == escape_char(c).add(
            escape_json(Seq::<char>::empty()),
        ));
        assert(escape_json(Seq::<char>::empty()) == Seq::<char>::empty());
        assert(escape_json(s.push(c)) =~= escape_json(s).add(escape_char(c)));
    } else {
        assert(s.push(c)[0] == s[0]);
        assert(s.push(c).drop_first() =~= s.drop_first().push(c));
        lemma_escape_json_push(s.drop_first(), c);
        assert(escape_json(s.push(c)) == escape_char(s[0]).add(
            escape_json(s.drop_first().push(c)),
        ));
        assert(escape_json(s.push(c)) =~= escape_json(s).add(escape_char(c)));
    }
}

/// Escapes a text for inclusion in a JSON string literal.
pub fn escape_json_str(s: &str) -> (r: String)
    ensures
        r@ == escape_json(s@),
{
    let n = s.unicode_len();
    let mut out = String::new();
    let mut i: usize = 0;
    while i < n
        invariant
            n == s@.len(),
            i <= n,
            out@ == escape_json(s@.subrange(0, i as int)),
        decreases n - i,
    {
        let c = s.get_char(i);
        proof {
            assert(s@.subrange(0, i + 1) =~= s@.subrange(0, i as int).push(c));
            lemma_escape_json_push(s@.subrange(0, i as int), c);
        }
        if c == '"' {
            out.append("\\\"");
            proof {
                reveal_strlit("\\\"");
                assert("\\\""@ =~= escape_char(c));
            }
        } else if c == '\\' {
            out.append("\\\\");
            proof {
                reveal_strlit("\\\\");
                assert("\\\\"@ =~= escape_char(c));
            }
        } else if c == '\u{8}' {
            out.append("\\b");
            proof {
                reveal_strlit("\\b");
                assert("\\b"@ =~= escape_char(c));
            }
        } else if c == '\t' {
            out.append("\\t");
            proof {
                reveal_strlit("\\t");
                assert("\\t"@ =~= escape_char(c));
            }
        } else if c == '\n' {
            out.append("\\n");
            proof {
                reveal_strlit("\\n");
                assert("\\n"@ =~= escape_char(c));
            }
        } else if c == '\u{c}' {
            out.append("\\f");
            proof {
                reveal_strlit("\\f");
                assert("\\f"@ =~= escape_char(c));
            }
        } else if c == '\r' {
            out.append("\\r");
            proof {
                reveal_strlit("\\r");
                assert("\\r"@ =~= escape_char(c));
            }
        } else {
            let code = c as u32;
            if code < 0x20 {
                out.append("\\u00");
                push_char(&mut out, hex_digit_char_exec((code / 16) as u8));
                push_char(&mut out, hex_digit_char_exec((code % 16) as u8));
                proof {
                    reveal_strlit("\\u00");
                    assert("\\u00"@.push(hex_digit_char(c as int / 16)).push(
                        hex_digit_char(c as int % 16),
                    ) =~= escape_char(c));
                }
            } else {
                push_char(&mut out, c);
                proof {
                    assert(seq![c] =~= escape_char(c));
                }
            }
        }
        i = i + 1;
    }
    proof {
        assert(s@.subrange(0, n as int) =~= s@);
    }
    out
}

/// The keepalive frame.
pub open spec fn ping_frame_spec() -> Seq<char> {
    "{\"op\":\"ping\"}"@
}

/// Builds the keepalive frame.
pub fn ping_frame() -> (r: String)
    ensures
        r@ == ping_frame_spec(),
{
    "{\"op\":\"ping\"}".to_owned()
}

/// A subscribe or unsubscribe frame naming only a channel.
pub open spec fn channel_frame_spec(op: Seq<char>, channel: Seq<char>) -> Seq<char> {
    "{\"channel\":\""@.add(escape_json(channel)).add("\",\"op\":\""@).add(op).add("\"}"@)
}

/// Builds a subscribe or unsubscribe frame naming only a channel.
pub fn channel_frame(op: &str, channel: &str) -> (r: String)
    ensures
        r@ == channel_frame_spec(op@, channel@),
{
    let mut s = "{\"channel\":\"".to_owned();
    let escaped = escape_json_str(channel);
    s.append(escaped.as_str());
    s.append("\",\"op\":\"");
    s.append(op);
    s.append("\"}");
    proof {
        assert(s@ =~= channel_frame_spec(op@, channel@));
    }
    s
}

/// A subscribe or unsubscribe frame naming a channel and a market.
pub open spec fn market_frame_spec(
    op: Seq<char>,
    channel: Seq<char>,
    market: Seq<char>,
) -> Seq<char> {
    "{\"channel\":\""@.add(escape_json(channel)).add("\",\"market\":\""@).add(
        escape_json(market),
    ).add("\",\"op\":\""@).add(op).add("\"}"@)
}

/// Builds a subscribe or unsubscribe frame naming a channel and a market.
pub fn market_frame(op: &str, channel: &str, market: &str) -> (r: String)
    ensures
        r@ == market_frame_spec(op@, channel@, market@),
{
    let mut s = "{\"channel\":\"".to_owned();
    let escaped_channel = escape_json_str(channel);
    s.append(escaped_channel.as_str());
    s.append("\",\"market\":\"");
    let escaped_market = escape_json_str(market);
    s.append(escaped_market.as_str());
    s.append("\",\"op\":\"");
    s.append(op);
    s.append("\"}");
    proof {
        assert(s@ =~= market_frame_spec(op@, channel@, market@));
    }
    s
}

/// A subscribe or unsubscribe frame naming a channel, a grouping and a
/// market.
pub open spec fn grouped_frame_spec(
    op: Seq<char>,
    channel: Seq<char>,
    market: Seq<char>,
    grouping: int,
) -> Seq<char> {
    "{\"channel\":\""@.add(escape_json(channel)).add("\",\"grouping\":"@).add(
        dec_int(grouping),
    ).add(",\"market\":\""@).add(escape_json(market)).add("\",\"op\":\""@).add(op).add("\"}"@)
}

/// Builds a subscribe or unsubscribe frame naming a channel, a grouping and
/// a market.
pub fn grouped_frame(op: &str, channel: &str, market: &str, grouping: i64) -> (r: String)
    ensures
        r@ == grouped_frame_spec(op@, channel@, market@, grouping as int),
{
    let mut s = "{\"channel\":\"".to_owned();
    let escaped_channel = escape_json_str(channel);
    s.append(escaped_channel.as_str());
    s.append("\",\"grouping\":");
    let digits = i64_to_dec(grouping);
    s.append(digits.as_str());
    s.append(",\"market\":\"");
    let escaped_market = escape_json_str(market);
    s.append(escaped_market.as_str());
    s.append("\",\"op\":\"");
    s.append(op);
    s.append("\"}");
    proof {
        assert(s@ =~= grouped_frame_spec(op@, channel@, market@, grouping as int));
    }
    s
}

/// The login frame: api key, signature and the signed timestamp.
pub open spec fn login_frame_spec(key: Seq<char>, sign: Seq<char>, ts: int) -> Seq<char> {
    "{\"args\":{\"key\":\""@.add(escape_json(key)).add("\",\"sign\":\""@).add(
        escape_json(sign),
    ).add("\",\"time\":"@).add(dec_int(ts)).add("},\"op\":\"login\"}"@)
}

/// Builds the login frame.
pub fn login_frame(key: &str, sign: &str, ts: i64) -> (r: String)
    ensures
        r@ == login_frame_spec(key@, sign@, ts as int),
{
    let mut s = "{\"args\":{\"key\":\"".to_owned();
    let escaped_key = escape_json_str(key);
    s.append(escaped_key.as_str());
    s.append("\",\"sign\":\"");
    let escaped_sign = escape_json_str(sign);
    s.append(escaped_sign.as_str());
    s.append("\",\"time\":");
    let digits = i64_to_dec(ts);
    s.append(digits.as_str());
    s.append("},\"op\":\"login\"}");
    proof {
        assert(s@ =~= login_frame_spec(key@, sign@, ts as int));
    }
    s
}

} // verus!
