//! The text form of signaling envelopes: JSON in the externally tagged
//! layout. Envelopes are written compactly; reading also takes whitespace
//! between tokens and every JSON string escape.
use vstd::prelude::*;
use crate::protocol::{
    tank_ids_view, SignalEnum, TankCommand, TankId, TankMessage, UserCommand, UserId, UserMessage,
    SignalV, TankCommandV, TankMessageV, UserCommandV, UserMessageV,
};

verus! {

/// Relies on `char::from_u32`: a character exactly for the Unicode scalar
/// values.
pub assume_specification[ char::from_u32 ](i: u32) -> (r: Option<char>)
    ensures
        r matches Some(c) ==> c as u32 == i,
        (i < 0xD800 || (0xE000 <= i && i <= 0x10FFFF)) ==> r is Some,
;

/// Relies on `String::push`: the character is added at the end.
pub assume_specification[ String::push ](s: &mut String, ch: char)
    ensures
        final(s)@ == old(s)@.push(ch),
;

pub open spec fn hex_digit(d: u32) -> char {
    if d == 0 { '0' } else if d == 1 { '1' } else if d == 2 { '2' } else if d == 3 { '3' }
    else if d == 4 { '4' } else if d == 5 { '5' } else if d == 6 { '6' } else if d == 7 { '7' }
    else if d == 8 { '8' } else if d == 9 { '9' } else if d == 10 { 'a' } else if d == 11 { 'b' }
    else if d == 12 { 'c' } else if d == 13 { 'd' } else if d == 14 { 'e' } else { 'f' }
}

/// Value of a hexadecimal digit of either case; 16 for any other character.
pub open spec fn hex_value(c: char) -> u32 {
    if c == '0' { 0 } else if c == '1' { 1 } else if c == '2' { 2 } else if c == '3' { 3 }
    else if c == '4' { 4 } else if c == '5' { 5 } else if c == '6' { 6 } else if c == '7' { 7 }
    else if c == '8' { 8 } else if c == '9' { 9 }
    else if c == 'a' || c == 'A' { 10 } else if c == 'b' || c == 'B' { 11 }
    else if c == 'c' || c == 'C' { 12 } else if c == 'd' || c == 'D' { 13 }
    else if c == 'e' || c == 'E' { 14 } else if c == 'f' || c == 'F' { 15 }
    else { 16 }
}

/// How one character is written inside a string literal.
pub open spec fn esc_char(c: char) -> Seq<char> {
    if c == '"' { seq!['\\', '"'] }
    else if c == '\\' { seq!['\\', '\\'] }
    else if c == '\n' { seq!['\\', 'n'] }
    else if c == '\r' { seq!['\\', 'r'] }
    else if c == '\t' { seq!['\\', 't'] }
    else if c == '\x08' { seq!['\\', 'b'] }
    else if c == '\x0c' { seq!['\\', 'f'] }
    else if (c as u32) < 32 {
        seq!['\\', 'u', '0', '0', hex_digit((c as u32) / 16), hex_digit((c as u32) % 16)]
    } else { seq![c] }
}

pub open spec fn esc(w: Seq<char>) -> Seq<char>
    decreases w.len(),
{
    if w.len() == 0 {
        Seq::empty()
    } else {
        esc_char(w[0]) + esc(w.drop_first())
    }
}

/// A string literal: quotes around the escaped characters.
pub open spec fn enc_str(w: Seq<char>) -> Seq<char> {
    seq!['"'] + esc(w) + seq!['"']
}

/// Four hexadecimal digits from `k` on, as a number.
pub open spec fn hex4(s: Seq<char>, k: int) -> Option<u32> {
    if 0 <= k && k + 3 < s.len() && hex_value(s[k]) < 16 && hex_value(s[k + 1]) < 16
        && hex_value(s[k + 2]) < 16 && hex_value(s[k + 3]) < 16 {
        Some(
            (4096 * hex_value(s[k]) + 256 * hex_value(s[k + 1]) + 16 * hex_value(s[k + 2])
                + hex_value(s[k + 3])) as u32,
        )
    } else {
        None
    }
}

/// The character a `\u` escape at `j` stands for, and the index after it:
/// one escape for a character of the basic plane, two (a surrogate pair) for
/// any other.
pub open spec fn unicode_escape(s: Seq<char>, j: int) -> Option<(char, int)> {
    match hex4(s, j + 2) {
        None => None,
        Some(v) => if 0xD800 <= v && v < 0xDC00 {
            if j + 7 < s.len() && s[j + 6] == '\\' && s[j + 7] == 'u' {
                match hex4(s, j + 8) {
                    Some(lo) => if 0xDC00 <= lo && lo < 0xE000 {
                        Some(((0x10000 + (v - 0xD800) * 1024 + (lo - 0xDC00)) as u32 as char, j + 12))
                    } else {
                        None
                    },
                    None => None,
                }
            } else {
                None
            }
        } else if 0xDC00 <= v && v < 0xE000 {
            None
        } else {
            Some((v as char, j + 6))
        },
    }
}

/// Reads one character of a literal's body at `j`, which is not the closing
/// quote: the character and the index after it.
pub open spec fn unit_at(s: Seq<char>, j: int) -> Option<(char, int)> {
    if s[j] == '\\' {
        if j + 1 >= s.len() {
            None
        } else {
            let e = s[j + 1];
            if e == '"' { Some(('"', j + 2)) }
            else if e == '\\' { Some(('\\', j + 2)) }
            else if e == '/' { Some(('/', j + 2)) }
            else if e == 'n' { Some(('\n', j + 2)) }
            else if e == 'r' { Some(('\r', j + 2)) }
            else if e == 't' { Some(('\t', j + 2)) }
            else if e == 'b' { Some(('\x08', j + 2)) }
            else if e == 'f' { Some(('\x0c', j + 2)) }
            else if e == 'u' { unicode_escape(s, j) }
            else { None }
        }
    } else if (s[j] as u32) < 32 {
        None
    } else {
        Some((s[j], j + 1))
    }
}

/// The body of a literal from `j` on: its characters and the index after the
/// closing quote.
pub open spec fn str_body(s: Seq<char>, j: int) -> Option<(Seq<char>, int)>
    decreases s.len() - j,
{
    if j < 0 || j >= s.len() {
        None
    } else if s[j] == '"' {
        Some((Seq::empty(), j + 1))
    } else {
        match unit_at(s, j) {
            None => None,
            Some((c, k)) => if k <= j {
                None
            } else {
                match str_body(s, k) {
                    None => None,
                    Some((w, e)) => Some((seq![c] + w, e)),
                }
            },
        }
    }
}

/// JSON whitespace.
pub open spec fn is_ws(c: char) -> bool {
    c == ' ' || c == '\t' || c == '\n' || c == '\r'
}

/// The first index from `i` on that is not whitespace.
pub open spec fn ws(s: Seq<char>, i: int) -> int
    decreases s.len() - i,
{
    if 0 <= i < s.len() && is_ws(s[i]) {
        ws(s, i + 1)
    } else {
        i
    }
}

/// A string literal after any whitespace from `i` on.
pub open spec fn p_str(s: Seq<char>, i: int) -> Option<(Seq<char>, int)> {
    let j = ws(s, i);
    if 0 <= j < s.len() && s[j] == '"' {
        str_body(s, j + 1)
    } else {
        None
    }
}

/// `a` stands in `s` from index `i` on.
pub open spec fn at(s: Seq<char>, i: int, a: Seq<char>) -> bool {
    0 <= i && i + a.len() <= s.len() && s.subrange(i, i + a.len()) =~= a
}

pub proof fn lemma_at_concat(s: Seq<char>, i: int, a: Seq<char>, b: Seq<char>)
    requires
        at(s, i, a + b),
    ensures
        at(s, i, a),
        at(s, i + a.len(), b),
{
    assert forall|k: int| 0 <= k < a.len() implies s[i + k] == a[k] by {
        assert(s.subrange(i, i + (a + b).len())[k] == (a + b)[k]);
    }
    assert forall|k: int| 0 <= k < b.len() implies s[i + a.len() + k] == b[k] by {
        assert(s.subrange(i, i + (a + b).len())[a.len() + k] == (a + b)[a.len() + k]);
    }
    assert(s.subrange(i, i + a.len()) =~= a);
    assert(s.subrange(i + a.len(), i + a.len() + b.len()) =~= b);
}

pub proof fn lemma_at_index(s: Seq<char>, i: int, a: Seq<char>, k: int)
    requires
        at(s, i, a),
        0 <= k < a.len(),
    ensures
        s[i + k] == a[k],
{
    assert(s.subrange(i, i + a.len())[k] == a[k]);
}

proof fn lemma_hex_round(d: u32)
    requires
        d < 16,
    ensures
        hex_value(hex_digit(d)) == d,
{
}

proof fn lemma_unit_esc(s: Seq<char>, j: int, c: char)
    requires
        at(s, j, esc_char(c)),
    ensures
        s[j] != '"',
        unit_at(s, j) == Some((c, j + esc_char(c).len())),
{
    let e = esc_char(c);
    lemma_at_index(s, j, e, 0);
    if e.len() >= 2 {
        lemma_at_index(s, j, e, 1);
    }
    if c != '"' && c != '\\' && c != '\n' && c != '\r' && c != '\t' && c != '\x08' && c
        != '\x0c' && (c as u32) < 32 {
        lemma_at_index(s, j, e, 2);
        lemma_at_index(s, j, e, 3);
        lemma_at_index(s, j, e, 4);
        lemma_at_index(s, j, e, 5);
        let v = c as u32;
        lemma_hex_round(v / 16);
        lemma_hex_round(v % 16);
        assert(16 * (v / 16) + v % 16 == v);
        vstd::utf8::char_u32_cast(c, v);
    }
}

/// A literal's text is read back as the characters it was written from.
pub proof fn lemma_str_body(s: Seq<char>, j: int, w: Seq<char>)
    requires
        at(s, j, esc(w) + seq!['"']),
    ensures
        str_body(s, j) == Some((w, j + esc(w).len() + 1)),
    decreases w.len(),
{
    if w.len() == 0 {
        assert(esc(w) + seq!['"'] =~= seq!['"']);
        lemma_at_index(s, j, seq!['"'], 0);
    } else {
        let c = w[0];
        let rest = w.drop_first();
        assert(esc(w) + seq!['"'] =~= esc_char(c) + (esc(rest) + seq!['"']));
        lemma_at_concat(s, j, esc_char(c), esc(rest) + seq!['"']);
        lemma_unit_esc(s, j, c);
        lemma_str_body(s, j + esc_char(c).len(), rest);
        assert(seq![c] + rest =~= w);
    }
}

proof fn lemma_ws_stop(s: Seq<char>, i: int)
    requires
        0 <= i < s.len(),
        !is_ws(s[i]),
    ensures
        ws(s, i) == i,
{
}

proof fn lemma_tok(s: Seq<char>, i: int, c: char)
    requires
        0 <= i < s.len(),
        s[i] == c,
        !is_ws(c),
    ensures
        p_tok(s, i, c) == Some(i + 1),
{
    lemma_ws_stop(s, i);
}

pub proof fn lemma_p_str(s: Seq<char>, i: int, w: Seq<char>)
    requires
        at(s, i, enc_str(w)),
    ensures
        p_str(s, i) == Some((w, i + enc_str(w).len())),
{
    assert(enc_str(w) =~= seq!['"'] + (esc(w) + seq!['"']));
    lemma_at_concat(s, i, seq!['"'], esc(w) + seq!['"']);
    lemma_at_index(s, i, seq!['"'], 0);
    lemma_ws_stop(s, i);
    lemma_str_body(s, i + 1, w);
}

// ---------------------------------------------------------------------------
// Envelope layout.

pub open spec fn e_tagged(name: Seq<char>, body: Seq<char>) -> Seq<char> {
    seq!['{'] + enc_str(name) + seq![':'] + body + seq!['}']
}

pub open spec fn e_pair(a: Seq<char>, b: Seq<char>) -> Seq<char> {
    seq!['['] + enc_str(a) + seq![','] + enc_str(b) + seq![']']
}

pub open spec fn e_items(ws: Seq<Seq<char>>) -> Seq<char>
    decreases ws.len(),
{
    if ws.len() == 0 {
        Seq::empty()
    } else if ws.len() == 1 {
        enc_str(ws[0])
    } else {
        enc_str(ws[0]) + seq![','] + e_items(ws.drop_first())
    }
}

pub open spec fn e_list(ws: Seq<Seq<char>>) -> Seq<char> {
    seq!['['] + e_items(ws) + seq![']']
}

pub open spec fn enc_user_command(c: UserCommandV) -> Seq<char> {
    match c {
        UserCommandV::Login => enc_str("Login"@),
        UserCommandV::IceOffer(t, d) => e_tagged("IceOffer"@, e_pair(t, d)),
        UserCommandV::SdpOffer(t, d) => e_tagged("SdpOffer"@, e_pair(t, d)),
    }
}

pub open spec fn enc_user_message(m: UserMessageV) -> Seq<char> {
    match m {
        UserMessageV::LoginResponse(u) => e_tagged("LoginResponse"@, enc_str(u)),
        UserMessageV::CameraListGetSuccess(l) => e_tagged("CameraListGetSuccess"@, e_list(l)),
        UserMessageV::SdpAnswer(t, d) => e_tagged("SdpAnswer"@, e_pair(t, d)),
        UserMessageV::IceOfferAnswer(t, d) => e_tagged("IceOfferAnswer"@, e_pair(t, d)),
    }
}

pub open spec fn enc_tank_command(c: TankCommandV) -> Seq<char> {
    match c {
        TankCommandV::Login => enc_str("Login"@),
        TankCommandV::NewCamera(t) => e_tagged("NewCamera"@, enc_str(t)),
        TankCommandV::SdpAnswer(u, d) => e_tagged("SdpAnswer"@, e_pair(u, d)),
        TankCommandV::IceAnswer(u, d) => e_tagged("IceAnswer"@, e_pair(u, d)),
    }
}

pub open spec fn enc_tank_message(m: TankMessageV) -> Seq<char> {
    match m {
        TankMessageV::LoginResponse(t) => e_tagged("LoginResponse"@, enc_str(t)),
        TankMessageV::SdpConnectionOffer(u, d) => e_tagged("SdpConnectionOffer"@, e_pair(u, d)),
        TankMessageV::IceConnectionOffer(u, d) => e_tagged("IceConnectionOffer"@, e_pair(u, d)),
    }
}

/// The text of an envelope.
pub open spec fn enc(v: SignalV) -> Seq<char> {
    match v {
        SignalV::Start => enc_str("Start"@),
        SignalV::UserCommand(c) => e_tagged("UserCommand"@, enc_user_command(c)),
        SignalV::UserResponse(m) => e_tagged("UserResponse"@, enc_user_message(m)),
        SignalV::TankCommand(c) => e_tagged("TankCommand"@, enc_tank_command(c)),
        SignalV::TankMessage(m) => e_tagged("TankMessage"@, enc_tank_message(m)),
    }
}

/// The punctuation `c` after any whitespace from `i` on: the index after it.
pub open spec fn p_tok(s: Seq<char>, i: int, c: char) -> Option<int> {
    let j = ws(s, i);
    if 0 <= j < s.len() && s[j] == c {
        Some(j + 1)
    } else {
        None
    }
}

/// A variant name: either a bare literal (`false`, and the index after it) or
/// `{` literal `:` (`true`, and the index after the colon).
pub open spec fn p_head(s: Seq<char>, i: int) -> Option<(Seq<char>, bool, int)> {
    let j = ws(s, i);
    if 0 <= j < s.len() && s[j] == '"' {
        match p_str(s, j) {
            Some((n, k)) => Some((n, false, k)),
            None => None,
        }
    } else if 0 <= j < s.len() && s[j] == '{' {
        match p_str(s, j + 1) {
            Some((n, k)) => match p_tok(s, k, ':') {
                Some(k1) => Some((n, true, k1)),
                None => None,
            },
            None => None,
        }
    } else {
        None
    }
}

pub open spec fn p_pair(s: Seq<char>, i: int) -> Option<(Seq<char>, Seq<char>, int)> {
    match p_tok(s, i, '[') {
        Some(i1) => match p_str(s, i1) {
            Some((a, k)) => match p_tok(s, k, ',') {
                Some(k1) => match p_str(s, k1) {
                    Some((b, e)) => match p_tok(s, e, ']') {
                        Some(e1) => Some((a, b, e1)),
                        None => None,
                    },
                    None => None,
                },
                None => None,
            },
            None => None,
        },
        None => None,
    }
}

/// Literals separated by commas up to the closing bracket.
pub open spec fn p_items(s: Seq<char>, i: int) -> Option<(Seq<Seq<char>>, int)>
    decreases s.len() - i,
{
    match p_str(s, i) {
        Some((w, k)) => match p_tok(s, k, ']') {
            Some(e) => Some((seq![w], e)),
            None => match p_tok(s, k, ',') {
                Some(k1) => if k1 > i {
                    match p_items(s, k1) {
                        Some((ws, e)) => Some((seq![w] + ws, e)),
                        None => None,
                    }
                } else {
                    None
                },
                None => None,
            },
        },
        None => None,
    }
}

pub open spec fn p_list(s: Seq<char>, i: int) -> Option<(Seq<Seq<char>>, int)> {
    match p_tok(s, i, '[') {
        Some(i1) => match p_tok(s, i1, ']') {
            Some(e) => Some((Seq::empty(), e)),
            None => p_items(s, i1),
        },
        None => None,
    }
}

/// A value that a closing brace follows: the value and the index after the
/// brace.
pub open spec fn closed<T>(s: Seq<char>, o: Option<(T, int)>) -> Option<(T, int)> {
    match o {
        Some((v, e)) => match p_tok(s, e, '}') {
            Some(e1) => Some((v, e1)),
            None => None,
        },
        None => None,
    }
}

pub open spec fn p_user_command(s: Seq<char>, i: int) -> Option<(UserCommandV, int)> {
    match p_head(s, i) {
        Some((n, false, k)) => if n == "Login"@ {
            Some((UserCommandV::Login, k))
        } else {
            None
        },
        Some((n, true, k)) => closed(
            s,
            match p_pair(s, k) {
                Some((a, b, e)) => if n == "IceOffer"@ {
                    Some((UserCommandV::IceOffer(a, b), e))
                } else if n == "SdpOffer"@ {
                    Some((UserCommandV::SdpOffer(a, b), e))
                } else {
                    None
                },
                None => None,
            },
        ),
        None => None,
    }
}

pub open spec fn p_user_message(s: Seq<char>, i: int) -> Option<(UserMessageV, int)> {
    match p_head(s, i) {
        Some((n, true, k)) => closed(
            s,
            if n == "LoginResponse"@ {
                match p_str(s, k) {
                    Some((u, e)) => Some((UserMessageV::LoginResponse(u), e)),
                    None => None,
                }
            } else if n == "CameraListGetSuccess"@ {
                match p_list(s, k) {
                    Some((l, e)) => Some((UserMessageV::CameraListGetSuccess(l), e)),
                    None => None,
                }
            } else {
                match p_pair(s, k) {
                    Some((a, b, e)) => if n == "SdpAnswer"@ {
                        Some((UserMessageV::SdpAnswer(a, b), e))
                    } else if n == "IceOfferAnswer"@ {
                        Some((UserMessageV::IceOfferAnswer(a, b), e))
                    } else {
                        None
                    },
                    None => None,
                }
            },
        ),
        _ => None,
    }
}

pub open spec fn p_tank_command(s: Seq<char>, i: int) -> Option<(TankCommandV, int)> {
    match p_head(s, i) {
        Some((n, false, k)) => if n == "Login"@ {
            Some((TankCommandV::Login, k))
        } else {
            None
        },
        Some((n, true, k)) => closed(
            s,
            if n == "NewCamera"@ {
                match p_str(s, k) {
                    Some((t, e)) => Some((TankCommandV::NewCamera(t), e)),
                    None => None,
                }
            } else {
                match p_pair(s, k) {
                    Some((a, b, e)) => if n == "SdpAnswer"@ {
                        Some((TankCommandV::SdpAnswer(a, b), e))
                    } else if n == "IceAnswer"@ {
                        Some((TankCommandV::IceAnswer(a, b), e))
                    } else {
                        None
                    },
                    None => None,
                }
            },
        ),
        None => None,
    }
}

pub open spec fn p_tank_message(s: Seq<char>, i: int) -> Option<(TankMessageV, int)> {
    match p_head(s, i) {
        Some((n, true, k)) => closed(
            s,
            if n == "LoginResponse"@ {
                match p_str(s, k) {
                    Some((t, e)) => Some((TankMessageV::LoginResponse(t), e)),
                    None => None,
                }
            } else {
                match p_pair(s, k) {
                    Some((a, b, e)) => if n == "SdpConnectionOffer"@ {
                        Some((TankMessageV::SdpConnectionOffer(a, b), e))
                    } else if n == "IceConnectionOffer"@ {
                        Some((TankMessageV::IceConnectionOffer(a, b), e))
                    } else {
                        None
                    },
                    None => None,
                }
            },
        ),
        _ => None,
    }
}

pub open spec fn p_signal(s: Seq<char>, i: int) -> Option<(SignalV, int)> {
    match p_head(s, i) {
        Some((n, false, k)) => if n == "Start"@ {
            Some((SignalV::Start, k))
        } else {
            None
        },
        Some((n, true, k)) => closed(
            s,
            if n == "UserCommand"@ {
                match p_user_command(s, k) {
                    Some((c, e)) => Some((SignalV::UserCommand(c), e)),
                    None => None,
                }
            } else if n == "UserResponse"@ {
                match p_user_message(s, k) {
                    Some((m, e)) => Some((SignalV::UserResponse(m), e)),
                    None => None,
                }
            } else if n == "TankCommand"@ {
                match p_tank_command(s, k) {
                    Some((c, e)) => Some((SignalV::TankCommand(c), e)),
                    None => None,
                }
            } else if n == "TankMessage"@ {
                match p_tank_message(s, k) {
                    Some((m, e)) => Some((SignalV::TankMessage(m), e)),
                    None => None,
                }
            } else {
                None
            },
        ),
        None => None,
    }
}

/// The envelope a whole text stands for, if any; whitespace may stand
/// between tokens and around the whole.
pub open spec fn decode_spec(s: Seq<char>) -> Option<SignalV> {
    match p_signal(s, 0) {
        Some((v, k)) => if ws(s, k) == s.len() {
            Some(v)
        } else {
            None
        },
        None => None,
    }
}

// ---------------------------------------------------------------------------
// Reading back what was written.

proof fn lemma_enc_str_len(w: Seq<char>)
    ensures
        enc_str(w).len() >= 2,
        enc_str(w)[0] == '"',
{
}

proof fn lemma_unit_head(s: Seq<char>, i: int, n: Seq<char>)
    requires
        at(s, i, enc_str(n)),
    ensures
        p_head(s, i) == Some((n, false, i + enc_str(n).len())),
{
    lemma_enc_str_len(n);
    lemma_at_index(s, i, enc_str(n), 0);
    lemma_ws_stop(s, i);
    lemma_p_str(s, i, n);
}

proof fn lemma_tagged_head(s: Seq<char>, i: int, n: Seq<char>, body: Seq<char>)
    requires
        at(s, i, e_tagged(n, body)),
    ensures
        p_head(s, i) == Some((n, true, i + enc_str(n).len() + 2)),
        at(s, i + enc_str(n).len() + 2, body),
        p_tok(s, i + enc_str(n).len() + 2 + body.len(), '}') == Some(
            i + enc_str(n).len() + 3 + body.len(),
        ),
        e_tagged(n, body).len() == enc_str(n).len() + body.len() + 3,
{
    let k = i + enc_str(n).len() + 2;
    assert(e_tagged(n, body) =~= seq!['{'] + (enc_str(n) + (seq![':'] + (body + seq!['}']))));
    lemma_at_concat(s, i, seq!['{'], enc_str(n) + (seq![':'] + (body + seq!['}'])));
    lemma_at_concat(s, i + 1, enc_str(n), seq![':'] + (body + seq!['}']));
    lemma_at_concat(s, k - 1, seq![':'], body + seq!['}']);
    lemma_at_concat(s, k, body, seq!['}']);
    lemma_at_index(s, i, seq!['{'], 0);
    lemma_at_index(s, k - 1, seq![':'], 0);
    lemma_at_index(s, k + body.len(), seq!['}'], 0);
    lemma_ws_stop(s, i);
    lemma_tok(s, k - 1, ':');
    lemma_tok(s, k + body.len(), '}');
    lemma_p_str(s, i + 1, n);
}

proof fn lemma_pair(s: Seq<char>, i: int, a: Seq<char>, b: Seq<char>)
    requires
        at(s, i, e_pair(a, b)),
    ensures
        p_pair(s, i) == Some((a, b, i + e_pair(a, b).len())),
{
    let la = enc_str(a).len();
    let lb = enc_str(b).len();
    assert(e_pair(a, b) =~= seq!['['] + (enc_str(a) + (seq![','] + (enc_str(b) + seq![']']))));
    lemma_at_concat(s, i, seq!['['], enc_str(a) + (seq![','] + (enc_str(b) + seq![']'])));
    lemma_at_concat(s, i + 1, enc_str(a), seq![','] + (enc_str(b) + seq![']']));
    lemma_at_concat(s, i + 1 + la, seq![','], enc_str(b) + seq![']']);
    lemma_at_concat(s, i + 2 + la, enc_str(b), seq![']']);
    lemma_at_index(s, i, seq!['['], 0);
    lemma_at_index(s, i + 1 + la, seq![','], 0);
    lemma_at_index(s, i + 2 + la + lb, seq![']'], 0);
    lemma_tok(s, i, '[');
    lemma_tok(s, i + 1 + la, ',');
    lemma_tok(s, i + 2 + la + lb, ']');
    lemma_p_str(s, i + 1, a);
    lemma_p_str(s, i + 2 + la, b);
}

proof fn lemma_items(s: Seq<char>, i: int, ws: Seq<Seq<char>>)
    requires
        ws.len() > 0,
        at(s, i, e_items(ws) + seq![']']),
    ensures
        p_items(s, i) == Some((ws, i + e_items(ws).len() + 1)),
    decreases ws.len(),
{
    let l0 = enc_str(ws[0]).len();
    lemma_enc_str_len(ws[0]);
    if ws.len() == 1 {
        assert(e_items(ws) == enc_str(ws[0]));
        lemma_at_concat(s, i, enc_str(ws[0]), seq![']']);
        lemma_at_index(s, i + l0, seq![']'], 0);
        lemma_tok(s, i + l0, ']');
        lemma_p_str(s, i, ws[0]);
        assert(seq![ws[0]] =~= ws);
    } else {
        let rest = ws.drop_first();
        assert(e_items(ws) + seq![']'] =~= enc_str(ws[0]) + (seq![','] + (e_items(rest)
            + seq![']'])));
        lemma_at_concat(s, i, enc_str(ws[0]), seq![','] + (e_items(rest) + seq![']']));
        lemma_at_concat(s, i + l0, seq![','], e_items(rest) + seq![']']);
        lemma_at_index(s, i + l0, seq![','], 0);
        lemma_ws_stop(s, i + l0);
        lemma_tok(s, i + l0, ',');
        lemma_p_str(s, i, ws[0]);
        lemma_items(s, i + l0 + 1, rest);
        assert(seq![ws[0]] + rest =~= ws);
    }
}

proof fn lemma_list(s: Seq<char>, i: int, ws: Seq<Seq<char>>)
    requires
        at(s, i, e_list(ws)),
    ensures
        p_list(s, i) == Some((ws, i + e_list(ws).len())),
{
    assert(e_list(ws) =~= seq!['['] + (e_items(ws) + seq![']']));
    lemma_at_concat(s, i, seq!['['], e_items(ws) + seq![']']);
    lemma_at_index(s, i, seq!['['], 0);
    lemma_tok(s, i, '[');
    if ws.len() == 0 {
        assert(e_items(ws) + seq![']'] =~= seq![']']);
        lemma_at_index(s, i + 1, seq![']'], 0);
        lemma_tok(s, i + 1, ']');
        assert(ws =~= Seq::empty());
    } else {
        lemma_enc_str_len(ws[0]);
        if ws.len() == 1 {
            assert(e_items(ws) + seq![']'] =~= enc_str(ws[0]) + seq![']']);
        } else {
            assert(e_items(ws) + seq![']'] =~= enc_str(ws[0]) + (seq![','] + e_items(
                ws.drop_first(),
            ) + seq![']']));
        }
        lemma_at_index(s, i + 1, e_items(ws) + seq![']'], 0);
        lemma_ws_stop(s, i + 1);
        lemma_items(s, i + 1, ws);
    }
}

proof fn lemma_distinct(a: Seq<char>, b: Seq<char>, k: int)
    requires
        (0 <= k < a.len() && 0 <= k < b.len() && a[k] != b[k]) || a.len() != b.len(),
    ensures
        a != b,
{
}

proof fn lemma_user_command(s: Seq<char>, i: int, c: UserCommandV)
    requires
        at(s, i, enc_user_command(c)),
    ensures
        p_user_command(s, i) == Some((c, i + enc_user_command(c).len())),
{
    reveal_strlit("Login");
    reveal_strlit("IceOffer");
    reveal_strlit("SdpOffer");
    match c {
        UserCommandV::Login => {
            lemma_unit_head(s, i, "Login"@);
        },
        UserCommandV::IceOffer(t, d) => {
            lemma_tagged_head(s, i, "IceOffer"@, e_pair(t, d));
            lemma_pair(s, i + enc_str("IceOffer"@).len() + 2, t, d);
        },
        UserCommandV::SdpOffer(t, d) => {
            lemma_tagged_head(s, i, "SdpOffer"@, e_pair(t, d));
            lemma_pair(s, i + enc_str("SdpOffer"@).len() + 2, t, d);
            lemma_distinct("SdpOffer"@, "IceOffer"@, 0);
        },
    }
}

proof fn lemma_user_message(s: Seq<char>, i: int, m: UserMessageV)
    requires
        at(s, i, enc_user_message(m)),
    ensures
        p_user_message(s, i) == Some((m, i + enc_user_message(m).len())),
{
    reveal_strlit("LoginResponse");
    reveal_strlit("CameraListGetSuccess");
    reveal_strlit("SdpAnswer");
    reveal_strlit("IceOfferAnswer");
    match m {
        UserMessageV::LoginResponse(u) => {
            lemma_tagged_head(s, i, "LoginResponse"@, enc_str(u));
            lemma_p_str(s, i + enc_str("LoginResponse"@).len() + 2, u);
        },
        UserMessageV::CameraListGetSuccess(l) => {
            lemma_tagged_head(s, i, "CameraListGetSuccess"@, e_list(l));
            lemma_list(s, i + enc_str("CameraListGetSuccess"@).len() + 2, l);
            lemma_distinct("CameraListGetSuccess"@, "LoginResponse"@, 0);
        },
        UserMessageV::SdpAnswer(t, d) => {
            lemma_tagged_head(s, i, "SdpAnswer"@, e_pair(t, d));
            lemma_pair(s, i + enc_str("SdpAnswer"@).len() + 2, t, d);
            lemma_distinct("SdpAnswer"@, "LoginResponse"@, 0);
            lemma_distinct("SdpAnswer"@, "CameraListGetSuccess"@, 0);
        },
        UserMessageV::IceOfferAnswer(t, d) => {
            lemma_tagged_head(s, i, "IceOfferAnswer"@, e_pair(t, d));
            lemma_pair(s, i + enc_str("IceOfferAnswer"@).len() + 2, t, d);
            lemma_distinct("IceOfferAnswer"@, "LoginResponse"@, 0);
            lemma_distinct("IceOfferAnswer"@, "CameraListGetSuccess"@, 0);
            lemma_distinct("IceOfferAnswer"@, "SdpAnswer"@, 0);
        },
    }
}

proof fn lemma_tank_command(s: Seq<char>, i: int, c: TankCommandV)
    requires
        at(s, i, enc_tank_command(c)),
    ensures
        p_tank_command(s, i) == Some((c, i + enc_tank_command(c).len())),
{
    reveal_strlit("Login");
    reveal_strlit("NewCamera");
    reveal_strlit("SdpAnswer");
    reveal_strlit("IceAnswer");
    match c {
        TankCommandV::Login => {
            lemma_unit_head(s, i, "Login"@);
        },
        TankCommandV::NewCamera(t) => {
            lemma_tagged_head(s, i, "NewCamera"@, enc_str(t));
            lemma_p_str(s, i + enc_str("NewCamera"@).len() + 2, t);
        },
        TankCommandV::SdpAnswer(u, d) => {
            lemma_tagged_head(s, i, "SdpAnswer"@, e_pair(u, d));
            lemma_pair(s, i + enc_str("SdpAnswer"@).len() + 2, u, d);
            lemma_distinct("SdpAnswer"@, "NewCamera"@, 0);
        },
        TankCommandV::IceAnswer(u, d) => {
            lemma_tagged_head(s, i, "IceAnswer"@, e_pair(u, d));
            lemma_pair(s, i + enc_str("IceAnswer"@).len() + 2, u, d);
            lemma_distinct("IceAnswer"@, "NewCamera"@, 0);
            lemma_distinct("IceAnswer"@, "SdpAnswer"@, 0);
        },
    }
}

proof fn lemma_tank_message(s: Seq<char>, i: int, m: TankMessageV)
    requires
        at(s, i, enc_tank_message(m)),
    ensures
        p_tank_message(s, i) == Some((m, i + enc_tank_message(m).len())),
{
    reveal_strlit("LoginResponse");
    reveal_strlit("SdpConnectionOffer");
    reveal_strlit("IceConnectionOffer");
    match m {
        TankMessageV::LoginResponse(t) => {
            lemma_tagged_head(s, i, "LoginResponse"@, enc_str(t));
            lemma_p_str(s, i + enc_str("LoginResponse"@).len() + 2, t);
        },
        TankMessageV::SdpConnectionOffer(u, d) => {
            lemma_tagged_head(s, i, "SdpConnectionOffer"@, e_pair(u, d));
            lemma_pair(s, i + enc_str("SdpConnectionOffer"@).len() + 2, u, d);
            lemma_distinct("SdpConnectionOffer"@, "LoginResponse"@, 0);
        },
        TankMessageV::IceConnectionOffer(u, d) => {
            lemma_tagged_head(s, i, "IceConnectionOffer"@, e_pair(u, d));
            lemma_pair(s, i + enc_str("IceConnectionOffer"@).len() + 2, u, d);
            lemma_distinct("IceConnectionOffer"@, "LoginResponse"@, 0);
            lemma_distinct("IceConnectionOffer"@, "SdpConnectionOffer"@, 0);
        },
    }
}

proof fn lemma_signal(s: Seq<char>, i: int, v: SignalV)
    requires
        at(s, i, enc(v)),
    ensures
        p_signal(s, i) == Some((v, i + enc(v).len())),
{
    reveal_strlit("Start");
    reveal_strlit("UserCommand");
    reveal_strlit("UserResponse");
    reveal_strlit("TankCommand");
    reveal_strlit("TankMessage");
    match v {
        SignalV::Start => {
            lemma_unit_head(s, i, "Start"@);
        },
        SignalV::UserCommand(c) => {
            lemma_tagged_head(s, i, "UserCommand"@, enc_user_command(c));
            lemma_user_command(s, i + enc_str("UserCommand"@).len() + 2, c);
        },
        SignalV::UserResponse(m) => {
            lemma_tagged_head(s, i, "UserResponse"@, enc_user_message(m));
            lemma_user_message(s, i + enc_str("UserResponse"@).len() + 2, m);
            lemma_distinct("UserResponse"@, "UserCommand"@, 4);
        },
        SignalV::TankCommand(c) => {
            lemma_tagged_head(s, i, "TankCommand"@, enc_tank_command(c));
            lemma_tank_command(s, i + enc_str("TankCommand"@).len() + 2, c);
            lemma_distinct("TankCommand"@, "UserCommand"@, 0);
            lemma_distinct("TankCommand"@, "UserResponse"@, 0);
        },
        SignalV::TankMessage(m) => {
            lemma_tagged_head(s, i, "TankMessage"@, enc_tank_message(m));
            lemma_tank_message(s, i + enc_str("TankMessage"@).len() + 2, m);
            lemma_distinct("TankMessage"@, "UserCommand"@, 0);
            lemma_distinct("TankMessage"@, "UserResponse"@, 0);
            lemma_distinct("TankMessage"@, "TankCommand"@, 4);
        },
    }
}

/// Reading an envelope's text gives back that envelope, for every envelope.
pub proof fn lemma_decode_enc(v: SignalV)
    ensures
        decode_spec(enc(v)) == Some(v),
{
    let s = enc(v);
    assert(s.subrange(0, s.len() as int) =~= s);
    lemma_signal(s, 0, v);
    assert(ws(s, s.len() as int) == s.len());
}


// ---------------------------------------------------------------------------
// Writing.

fn hex_char(d: u32) -> (r: char)
    requires
        d < 16,
    ensures
        r == hex_digit(d),
{
    if d == 0 { '0' } else if d == 1 { '1' } else if d == 2 { '2' } else if d == 3 { '3' }
    else if d == 4 { '4' } else if d == 5 { '5' } else if d == 6 { '6' } else if d == 7 { '7' }
    else if d == 8 { '8' } else if d == 9 { '9' } else if d == 10 { 'a' } else if d == 11 { 'b' }
    else if d == 12 { 'c' } else if d == 13 { 'd' } else if d == 14 { 'e' } else { 'f' }
}

fn push_esc_char(out: &mut String, c: char)
    ensures
        final(out)@ == old(out)@ + esc_char(c),
{
    let ghost o = out@;
    if c == '"' {
        out.push('\\');
        out.push('"');
    } else if c == '\\' {
        out.push('\\');
        out.push('\\');
    } else if c == '\n' {
        out.push('\\');
        out.push('n');
    } else if c == '\r' {
        out.push('\\');
        out.push('r');
    } else if c == '\t' {
        out.push('\\');
        out.push('t');
    } else if c == '\x08' {
        out.push('\\');
        out.push('b');
    } else if c == '\x0c' {
        out.push('\\');
        out.push('f');
    } else if (c as u32) < 32 {
        out.push('\\');
        out.push('u');
        out.push('0');
        out.push('0');
        out.push(hex_char((c as u32) / 16));
        out.push(hex_char((c as u32) % 16));
    } else {
        out.push(c);
    }
    assert(out@ =~= o + esc_char(c));
}

proof fn lemma_esc_push(w: Seq<char>, c: char)
    ensures
        esc(w.push(c)) == esc(w) + esc_char(c),
    decreases w.len(),
{
    if w.len() == 0 {
        assert(w.push(c).drop_first() =~= Seq::<char>::empty());
        assert(esc(w.push(c)) =~= esc_char(c) + esc(Seq::<char>::empty()));
        assert(esc(w) + esc_char(c) =~= esc_char(c));
    } else {
        assert(w.push(c).drop_first() =~= w.drop_first().push(c));
        lemma_esc_push(w.drop_first(), c);
        assert(esc(w.push(c)) =~= esc(w) + esc_char(c));
    }
}

fn push_escaped(out: &mut String, w: &str)
    ensures
        final(out)@ == old(out)@ + esc(w@),
{
    let n = w.unicode_len();
    let ghost o = out@;
    let mut j: usize = 0;
    while j < n
        invariant
            n == w@.len(),
            j <= n,
            out@ == o + esc(w@.take(j as int)),
        decreases n - j,
    {
        let c = w.get_char(j);
        proof {
            lemma_esc_push(w@.take(j as int), c);
            assert(w@.take(j as int).push(c) =~= w@.take(j as int + 1));
        }
        push_esc_char(out, c);
        j += 1;
        assert(out@ =~= o + esc(w@.take(j as int)));
    }
    assert(w@.take(n as int) =~= w@);
}

fn push_literal(out: &mut String, w: &str)
    ensures
        final(out)@ == old(out)@ + enc_str(w@),
{
    let ghost o = out@;
    out.push('"');
    push_escaped(out, w);
    out.push('"');
    assert(out@ =~= o + enc_str(w@));
}

fn push_tag_open(out: &mut String, name: &str)
    ensures
        final(out)@ == old(out)@ + seq!['{'] + enc_str(name@) + seq![':'],
{
    let ghost o = out@;
    out.push('{');
    push_literal(out, name);
    out.push(':');
    assert(out@ =~= o + seq!['{'] + enc_str(name@) + seq![':']);
}

fn push_pair(out: &mut String, a: &str, b: &str)
    ensures
        final(out)@ == old(out)@ + e_pair(a@, b@),
{
    let ghost o = out@;
    out.push('[');
    push_literal(out, a);
    out.push(',');
    push_literal(out, b);
    out.push(']');
    assert(out@ =~= o + e_pair(a@, b@));
}

proof fn lemma_items_push(ws: Seq<Seq<char>>, x: Seq<char>)
    ensures
        e_items(ws.push(x)) == e_items(ws) + (if ws.len() == 0 {
            Seq::<char>::empty()
        } else {
            seq![',']
        }) + enc_str(x),
    decreases ws.len(),
{
    if ws.len() == 0 {
        assert(ws.push(x) =~= seq![x]);
        assert(e_items(ws.push(x)) =~= e_items(ws) + Seq::<char>::empty() + enc_str(x));
    } else if ws.len() == 1 {
        assert(ws.push(x).drop_first() =~= seq![x]);
        assert(ws.push(x)[0] == ws[0]);
        assert(e_items(seq![x]) == enc_str(x));
        assert(e_items(ws) == enc_str(ws[0]));
        assert(e_items(ws.push(x)) =~= e_items(ws) + seq![','] + enc_str(x));
    } else {
        assert(ws.push(x).drop_first() =~= ws.drop_first().push(x));
        lemma_items_push(ws.drop_first(), x);
        assert(e_items(ws.push(x)) =~= e_items(ws) + seq![','] + enc_str(x));
    }
}

fn push_list(out: &mut String, l: &Vec<TankId>)
    ensures
        final(out)@ == old(out)@ + e_list(tank_ids_view(l@)),
{
    let ghost o = out@;
    out.push('[');
    let mut j: usize = 0;
    while j < l.len()
        invariant
            j <= l@.len(),
            out@ == o + seq!['['] + e_items(tank_ids_view(l@.take(j as int))),
        decreases l@.len() - j,
    {
        let ghost before = out@;
        proof {
            lemma_items_push(tank_ids_view(l@.take(j as int)), l@[j as int]@);
            assert(tank_ids_view(l@.take(j as int)).push(l@[j as int]@) =~= tank_ids_view(
                l@.take(j as int + 1),
            ));
        }
        if j > 0 {
            out.push(',');
        }
        push_literal(out, l[j].0.as_str());
        j += 1;
        assert(out@ =~= o + seq!['['] + e_items(tank_ids_view(l@.take(j as int))));
    }
    out.push(']');
    assert(l@.take(l@.len() as int) =~= l@);
    assert(out@ =~= o + e_list(tank_ids_view(l@)));
}

fn push_user_command(out: &mut String, c: &UserCommand)
    ensures
        final(out)@ == old(out)@ + enc_user_command(c@),
{
    let ghost o = out@;
    match c {
        UserCommand::Login => push_literal(out, "Login"),
        UserCommand::IceOffer(t, d) => {
            push_tag_open(out, "IceOffer");
            push_pair(out, t.0.as_str(), d.as_str());
            out.push('}');
        },
        UserCommand::SdpOffer(t, d) => {
            push_tag_open(out, "SdpOffer");
            push_pair(out, t.0.as_str(), d.as_str());
            out.push('}');
        },
    }
    assert(out@ =~= o + enc_user_command(c@));
}

fn push_user_message(out: &mut String, m: &UserMessage)
    ensures
        final(out)@ == old(out)@ + enc_user_message(m@),
{
    let ghost o = out@;
    match m {
        UserMessage::LoginResponse(u) => {
            push_tag_open(out, "LoginResponse");
            push_literal(out, u.0.as_str());
            out.push('}');
        },
        UserMessage::CameraListGetSuccess(l) => {
            push_tag_open(out, "CameraListGetSuccess");
            push_list(out, l);
            out.push('}');
        },
        UserMessage::SdpAnswer(t, d) => {
            push_tag_open(out, "SdpAnswer");
            push_pair(out, t.0.as_str(), d.as_str());
            out.push('}');
        },
        UserMessage::IceOfferAnswer(t, d) => {
            push_tag_open(out, "IceOfferAnswer");
            push_pair(out, t.0.as_str(), d.as_str());
            out.push('}');
        },
    }
    assert(out@ =~= o + enc_user_message(m@));
}

fn push_tank_command(out: &mut String, c: &TankCommand)
    ensures
        final(out)@ == old(out)@ + enc_tank_command(c@),
{
    let ghost o = out@;
    match c {
        TankCommand::Login => push_literal(out, "Login"),
        TankCommand::NewCamera(t) => {
            push_tag_open(out, "NewCamera");
            push_literal(out, t.0.as_str());
            out.push('}');
        },
        TankCommand::SdpAnswer(u, d) => {
            push_tag_open(out, "SdpAnswer");
            push_pair(out, u.0.as_str(), d.as_str());
            out.push('}');
        },
        TankCommand::IceAnswer(u, d) => {
            push_tag_open(out, "IceAnswer");
            push_pair(out, u.0.as_str(), d.as_str());
            out.push('}');
        },
    }
    assert(out@ =~= o + enc_tank_command(c@));
}

fn push_tank_message(out: &mut String, m: &TankMessage)
    ensures
        final(out)@ == old(out)@ + enc_tank_message(m@),
{
    let ghost o = out@;
    match m {
        TankMessage::LoginResponse(t) => {
            push_tag_open(out, "LoginResponse");
            push_literal(out, t.0.as_str());
            out.push('}');
        },
        TankMessage::SdpConnectionOffer(u, d) => {
            push_tag_open(out, "SdpConnectionOffer");
            push_pair(out, u.0.as_str(), d.as_str());
            out.push('}');
        },
        TankMessage::IceConnectionOffer(u, d) => {
            push_tag_open(out, "IceConnectionOffer");
            push_pair(out, u.0.as_str(), d.as_str());
            out.push('}');
        },
    }
    assert(out@ =~= o + enc_tank_message(m@));
}

/// The text of an envelope.
pub fn encode(msg: &SignalEnum) -> (r: String)
    ensures
        r@ == enc(msg@),
{
    let mut out = String::new();
    match msg {
        SignalEnum::Start => push_literal(&mut out, "Start"),
        SignalEnum::UserCommand(c) => {
            push_tag_open(&mut out, "UserCommand");
            push_user_command(&mut out, c);
            out.push('}');
        },
        SignalEnum::UserResponse(m) => {
            push_tag_open(&mut out, "UserResponse");
            push_user_message(&mut out, m);
            out.push('}');
        },
        SignalEnum::TankCommand(c) => {
            push_tag_open(&mut out, "TankCommand");
            push_tank_command(&mut out, c);
            out.push('}');
        },
        SignalEnum::TankMessage(m) => {
            push_tag_open(&mut out, "TankMessage");
            push_tank_message(&mut out, m);
            out.push('}');
        },
    }
    assert(out@ =~= enc(msg@));
    out
}


// ---------------------------------------------------------------------------
// Reading.

pub open spec fn glue(p: Seq<char>, o: Option<(Seq<char>, int)>) -> Option<(Seq<char>, int)> {
    match o {
        Some((w, e)) => Some((p + w, e)),
        None => None,
    }
}

pub open spec fn glue_list(p: Seq<Seq<char>>, o: Option<(Seq<Seq<char>>, int)>) -> Option<
    (Seq<Seq<char>>, int),
> {
    match o {
        Some((ws, e)) => Some((p + ws, e)),
        None => None,
    }
}

fn skip_ws(s: &str, n: usize, i: usize) -> (r: usize)
    requires
        n == s@.len(),
    ensures
        r as int == ws(s@, i as int),
        i <= r,
        i <= n ==> r <= n,
{
    let mut j = i;
    loop
        invariant
            n == s@.len(),
            i <= j,
            i <= n ==> j <= n,
            ws(s@, i as int) == ws(s@, j as int),
        decreases n - j,
    {
        if j >= n {
            return j;
        }
        let c = s.get_char(j);
        if c == ' ' || c == '\t' || c == '\n' || c == '\r' {
            j += 1;
        } else {
            return j;
        }
    }
}

fn tok(s: &str, n: usize, i: usize, c: char) -> (r: Option<usize>)
    requires
        n == s@.len(),
    ensures
        match r {
            Some(k) => p_tok(s@, i as int, c) == Some(k as int) && k <= n,
            None => p_tok(s@, i as int, c) is None,
        },
{
    let j = skip_ws(s, n, i);
    if j < n && s.get_char(j) == c {
        Some(j + 1)
    } else {
        None
    }
}

fn hex_val(c: char) -> (r: u32)
    ensures
        r == hex_value(c),
{
    if c == '0' { 0 } else if c == '1' { 1 } else if c == '2' { 2 } else if c == '3' { 3 }
    else if c == '4' { 4 } else if c == '5' { 5 } else if c == '6' { 6 } else if c == '7' { 7 }
    else if c == '8' { 8 } else if c == '9' { 9 }
    else if c == 'a' || c == 'A' { 10 } else if c == 'b' || c == 'B' { 11 }
    else if c == 'c' || c == 'C' { 12 } else if c == 'd' || c == 'D' { 13 }
    else if c == 'e' || c == 'E' { 14 } else if c == 'f' || c == 'F' { 15 }
    else { 16 }
}

fn read_hex4(s: &str, n: usize, k: usize) -> (r: Option<u32>)
    requires
        n == s@.len(),
    ensures
        r == hex4(s@, k as int),
{
    if k >= n || n - k <= 3 {
        return None;
    }
    let h0 = hex_val(s.get_char(k));
    let h1 = hex_val(s.get_char(k + 1));
    let h2 = hex_val(s.get_char(k + 2));
    let h3 = hex_val(s.get_char(k + 3));
    if h0 < 16 && h1 < 16 && h2 < 16 && h3 < 16 {
        Some(4096 * h0 + 256 * h1 + 16 * h2 + h3)
    } else {
        None
    }
}

fn read_unicode_escape(s: &str, n: usize, j: usize) -> (r: Option<(char, usize)>)
    requires
        n == s@.len(),
        j + 1 < n,
    ensures
        match r {
            Some((c, k)) => unicode_escape(s@, j as int) == Some((c, k as int)) && j < k <= n,
            None => unicode_escape(s@, j as int) is None,
        },
{
    let v = match read_hex4(s, n, j + 2) {
        None => {
            return None;
        },
        Some(v) => v,
    };
    if 0xD800 <= v && v < 0xDC00 {
        if n - j > 7 && s.get_char(j + 6) == '\\' && s.get_char(j + 7) == 'u' {
            match read_hex4(s, n, j + 8) {
                Some(lo) => if 0xDC00 <= lo && lo < 0xE000 {
                    let code: u32 = 0x10000 + (v - 0xD800) * 1024 + (lo - 0xDC00);
                    match char::from_u32(code) {
                        Some(c) => {
                            proof {
                                vstd::utf8::char_u32_cast(c, code);
                            }
                            Some((c, j + 12))
                        },
                        None => None,
                    }
                } else {
                    None
                },
                None => None,
            }
        } else {
            None
        }
    } else if 0xDC00 <= v && v < 0xE000 {
        None
    } else {
        match char::from_u32(v) {
            Some(c) => {
                proof {
                    vstd::utf8::char_u32_cast(c, v);
                }
                Some((c, j + 6))
            },
            None => None,
        }
    }
}

fn read_unit(s: &str, n: usize, j: usize) -> (r: Option<(char, usize)>)
    requires
        n == s@.len(),
        j < n,
        s@[j as int] != '"',
    ensures
        match r {
            Some((c, k)) => unit_at(s@, j as int) == Some((c, k as int)) && j < k <= n,
            None => unit_at(s@, j as int) is None,
        },
{
    let c = s.get_char(j);
    if c == '\\' {
        if j + 1 >= n {
            return None;
        }
        let e = s.get_char(j + 1);
        if e == '"' {
            Some(('"', j + 2))
        } else if e == '\\' {
            Some(('\\', j + 2))
        } else if e == '/' {
            Some(('/', j + 2))
        } else if e == 'n' {
            Some(('\n', j + 2))
        } else if e == 'r' {
            Some(('\r', j + 2))
        } else if e == 't' {
            Some(('\t', j + 2))
        } else if e == 'b' {
            Some(('\x08', j + 2))
        } else if e == 'f' {
            Some(('\x0c', j + 2))
        } else if e == 'u' {
            read_unicode_escape(s, n, j)
        } else {
            None
        }
    } else if (c as u32) < 32 {
        None
    } else {
        Some((c, j + 1))
    }
}

fn parse_str(s: &str, n: usize, i: usize) -> (r: Option<(String, usize)>)
    requires
        n == s@.len(),
    ensures
        match r {
            Some((w, k)) => p_str(s@, i as int) == Some((w@, k as int)) && k <= n,
            None => p_str(s@, i as int) is None,
        },
{
    let start = skip_ws(s, n, i);
    if start >= n || s.get_char(start) != '"' {
        return None;
    }
    let mut out = String::new();
    let mut j: usize = start + 1;
    while j < n
        invariant
            n == s@.len(),
            start < j <= n,
            p_str(s@, i as int) == str_body(s@, start + 1),
            str_body(s@, start + 1) == glue(out@, str_body(s@, j as int)),
        decreases n - j,
    {
        let c = s.get_char(j);
        if c == '"' {
            assert(str_body(s@, j as int) == Some((Seq::<char>::empty(), j as int + 1)));
            assert(out@ + Seq::<char>::empty() =~= out@);
            return Some((out, j + 1));
        }
        match read_unit(s, n, j) {
            None => {
                return None;
            },
            Some((d, k)) => {
                let ghost before = out@;
                out.push(d);
                proof {
                    match str_body(s@, k as int) {
                        Some((w, e)) => {
                            assert(before + (seq![d] + w) =~= out@ + w);
                        },
                        None => {},
                    }
                }
                j = k;
            },
        }
    }
    None
}

fn parse_pair(s: &str, n: usize, i: usize) -> (r: Option<(String, String, usize)>)
    requires
        n == s@.len(),
    ensures
        match r {
            Some((a, b, k)) => p_pair(s@, i as int) == Some((a@, b@, k as int)) && k <= n,
            None => p_pair(s@, i as int) is None,
        },
{
    let i1 = match tok(s, n, i, '[') {
        Some(k) => k,
        None => {
            return None;
        },
    };
    let (a, k) = match parse_str(s, n, i1) {
        Some(x) => x,
        None => {
            return None;
        },
    };
    let k1 = match tok(s, n, k, ',') {
        Some(x) => x,
        None => {
            return None;
        },
    };
    let (b, e) = match parse_str(s, n, k1) {
        Some(x) => x,
        None => {
            return None;
        },
    };
    match tok(s, n, e, ']') {
        Some(e1) => Some((a, b, e1)),
        None => None,
    }
}

fn parse_items(s: &str, n: usize, i: usize) -> (r: Option<(Vec<TankId>, usize)>)
    requires
        n == s@.len(),
    ensures
        match r {
            Some((l, k)) => p_items(s@, i as int) == Some((tank_ids_view(l@), k as int)) && k
                <= n,
            None => p_items(s@, i as int) is None,
        },
{
    let mut acc: Vec<TankId> = Vec::new();
    let mut j: usize = i;
    if j > n {
        assert(p_str(s@, j as int) is None);
        return None;
    }
    assert(tank_ids_view(acc@) + Seq::<Seq<char>>::empty() =~= Seq::<Seq<char>>::empty());
    loop
        invariant
            n == s@.len(),
            i <= j <= n,
            p_items(s@, i as int) == glue_list(tank_ids_view(acc@), p_items(s@, j as int)),
        decreases n - j,
    {
        match parse_str(s, n, j) {
            None => {
                return None;
            },
            Some((w, k)) => {
                let ghost wv = w@;
                let ghost before = tank_ids_view(acc@);
                acc.push(TankId(w));
                assert(tank_ids_view(acc@) =~= before.push(wv));
                match tok(s, n, k, ']') {
                    Some(e) => {
                        assert(before + seq![wv] =~= tank_ids_view(acc@));
                        return Some((acc, e));
                    },
                    None => {},
                }
                match tok(s, n, k, ',') {
                    Some(k1) => {
                        if k1 <= j {
                            return None;
                        }
                        proof {
                            match p_items(s@, k1 as int) {
                                Some((ws, e)) => {
                                    assert(before + (seq![wv] + ws) =~= tank_ids_view(acc@) + ws);
                                },
                                None => {},
                            }
                        }
                        j = k1;
                    },
                    None => {
                        return None;
                    },
                }
            },
        }
    }
}

fn parse_list(s: &str, n: usize, i: usize) -> (r: Option<(Vec<TankId>, usize)>)
    requires
        n == s@.len(),
    ensures
        match r {
            Some((l, k)) => p_list(s@, i as int) == Some((tank_ids_view(l@), k as int)) && k
                <= n,
            None => p_list(s@, i as int) is None,
        },
{
    let i1 = match tok(s, n, i, '[') {
        Some(k) => k,
        None => {
            return None;
        },
    };
    match tok(s, n, i1, ']') {
        Some(e) => {
            let l: Vec<TankId> = Vec::new();
            assert(tank_ids_view(l@) =~= Seq::<Seq<char>>::empty());
            Some((l, e))
        },
        None => parse_items(s, n, i1),
    }
}

fn parse_head(s: &str, n: usize, i: usize) -> (r: Option<(String, bool, usize)>)
    requires
        n == s@.len(),
    ensures
        match r {
            Some((w, t, k)) => p_head(s@, i as int) == Some((w@, t, k as int)) && k <= n,
            None => p_head(s@, i as int) is None,
        },
{
    let j = skip_ws(s, n, i);
    if j >= n {
        return None;
    }
    let c = s.get_char(j);
    if c == '"' {
        match parse_str(s, n, j) {
            Some((w, k)) => Some((w, false, k)),
            None => None,
        }
    } else if c == '{' {
        match parse_str(s, n, j + 1) {
            Some((w, k)) => match tok(s, n, k, ':') {
                Some(k1) => Some((w, true, k1)),
                None => None,
            },
            None => None,
        }
    } else {
        None
    }
}

/// Whether two texts hold the same characters.
pub fn same_text(a: &str, b: &str) -> (r: bool)
    ensures
        r == (a@ == b@),
{
    let n = a.unicode_len();
    if n != b.unicode_len() {
        return false;
    }
    let mut j: usize = 0;
    while j < n
        invariant
            n == a@.len(),
            n == b@.len(),
            j <= n,
            forall|k: int| 0 <= k < j ==> a@[k] == b@[k],
        decreases n - j,
    {
        if a.get_char(j) != b.get_char(j) {
            assert(a@[j as int] != b@[j as int]);
            return false;
        }
        j += 1;
    }
    assert(a@ =~= b@);
    true
}

fn text_is(a: &String, b: &str) -> (r: bool)
    ensures
        r == (a@ == b@),
{
    same_text(a.as_str(), b)
}

fn close_brace<T>(s: &str, n: usize, inner: Option<(T, usize)>) -> (r: Option<(T, usize)>)
    requires
        n == s@.len(),
    ensures
        match inner {
            Some((v, e)) => match p_tok(s@, e as int, '}') {
                Some(e1) => r == Some((v, e1 as usize)) && e1 <= n,
                None => r is None,
            },
            None => r is None,
        },
{
    match inner {
        Some((v, e)) => match tok(s, n, e, '}') {
            Some(e1) => Some((v, e1)),
            None => None,
        },
        None => None,
    }
}

fn parse_user_command(s: &str, n: usize, i: usize) -> (r: Option<(UserCommand, usize)>)
    requires
        n == s@.len(),
    ensures
        match r {
            Some((c, k)) => p_user_command(s@, i as int) == Some((c@, k as int)) && k <= n,
            None => p_user_command(s@, i as int) is None,
        },
{
    match parse_head(s, n, i) {
        None => None,
        Some((name, tagged, k)) => {
            if !tagged {
                if text_is(&name, "Login") {
                    Some((UserCommand::Login, k))
                } else {
                    None
                }
            } else {
                let inner = match parse_pair(s, n, k) {
                    None => None,
                    Some((a, b, e)) => {
                        if text_is(&name, "IceOffer") {
                            Some((UserCommand::IceOffer(TankId(a), b), e))
                        } else if text_is(&name, "SdpOffer") {
                            Some((UserCommand::SdpOffer(TankId(a), b), e))
                        } else {
                            None
                        }
                    },
                };
                close_brace(s, n, inner)
            }
        },
    }
}

fn parse_user_message(s: &str, n: usize, i: usize) -> (r: Option<(UserMessage, usize)>)
    requires
        n == s@.len(),
    ensures
        match r {
            Some((m, k)) => p_user_message(s@, i as int) == Some((m@, k as int)) && k <= n,
            None => p_user_message(s@, i as int) is None,
        },
{
    match parse_head(s, n, i) {
        Some((name, true, k)) => {
            let inner = if text_is(&name, "LoginResponse") {
                match parse_str(s, n, k) {
                    Some((u, e)) => Some((UserMessage::LoginResponse(UserId(u)), e)),
                    None => None,
                }
            } else if text_is(&name, "CameraListGetSuccess") {
                match parse_list(s, n, k) {
                    Some((l, e)) => Some((UserMessage::CameraListGetSuccess(l), e)),
                    None => None,
                }
            } else {
                match parse_pair(s, n, k) {
                    None => None,
                    Some((a, b, e)) => {
                        if text_is(&name, "SdpAnswer") {
                            Some((UserMessage::SdpAnswer(TankId(a), b), e))
                        } else if text_is(&name, "IceOfferAnswer") {
                            Some((UserMessage::IceOfferAnswer(TankId(a), b), e))
                        } else {
                            None
                        }
                    },
                }
            };
            close_brace(s, n, inner)
        },
        _ => None,
    }
}

fn parse_tank_command(s: &str, n: usize, i: usize) -> (r: Option<(TankCommand, usize)>)
    requires
        n == s@.len(),
    ensures
        match r {
            Some((c, k)) => p_tank_command(s@, i as int) == Some((c@, k as int)) && k <= n,
            None => p_tank_command(s@, i as int) is None,
        },
{
    match parse_head(s, n, i) {
        None => None,
        Some((name, tagged, k)) => {
            if !tagged {
                if text_is(&name, "Login") {
                    Some((TankCommand::Login, k))
                } else {
                    None
                }
            } else {
                let inner = if text_is(&name, "NewCamera") {
                    match parse_str(s, n, k) {
                        Some((t, e)) => Some((TankCommand::NewCamera(TankId(t)), e)),
                        None => None,
                    }
                } else {
                    match parse_pair(s, n, k) {
                        None => None,
                        Some((a, b, e)) => {
                            if text_is(&name, "SdpAnswer") {
                                Some((TankCommand::SdpAnswer(UserId(a), b), e))
                            } else if text_is(&name, "IceAnswer") {
                                Some((TankCommand::IceAnswer(UserId(a), b), e))
                            } else {
                                None
                            }
                        },
                    }
                };
                close_brace(s, n, inner)
            }
        },
    }
}

fn parse_tank_message(s: &str, n: usize, i: usize) -> (r: Option<(TankMessage, usize)>)
    requires
        n == s@.len(),
    ensures
        match r {
            Some((m, k)) => p_tank_message(s@, i as int) == Some((m@, k as int)) && k <= n,
            None => p_tank_message(s@, i as int) is None,
        },
{
    match parse_head(s, n, i) {
        Some((name, true, k)) => {
            let inner = if text_is(&name, "LoginResponse") {
                match parse_str(s, n, k) {
                    Some((t, e)) => Some((TankMessage::LoginResponse(TankId(t)), e)),
                    None => None,
                }
            } else {
                match parse_pair(s, n, k) {
                    None => None,
                    Some((a, b, e)) => {
                        if text_is(&name, "SdpConnectionOffer") {
                            Some((TankMessage::SdpConnectionOffer(UserId(a), b), e))
                        } else if text_is(&name, "IceConnectionOffer") {
                            Some((TankMessage::IceConnectionOffer(UserId(a), b), e))
                        } else {
                            None
                        }
                    },
                }
            };
            close_brace(s, n, inner)
        },
        _ => None,
    }
}

/// The envelope that a text stands for; `None` where the text is not the
/// text of an envelope.
pub fn decode(text: &str) -> (r: Option<SignalEnum>)
    ensures
        match r {
            Some(m) => decode_spec(text@) == Some(m@),
            None => decode_spec(text@) is None,
        },
{
    let n = text.unicode_len();
    let parsed: Option<(SignalEnum, usize)> = match parse_head(text, n, 0) {
        None => None,
        Some((name, false, k)) => if text_is(&name, "Start") {
            Some((SignalEnum::Start, k))
        } else {
            None
        },
        Some((name, true, k)) => {
            if text_is(&name, "UserCommand") {
                let inner = match parse_user_command(text, n, k) {
                    Some((c, e)) => Some((SignalEnum::UserCommand(c), e)),
                    None => None,
                };
                close_brace(text, n, inner)
            } else if text_is(&name, "UserResponse") {
                let inner = match parse_user_message(text, n, k) {
                    Some((m, e)) => Some((SignalEnum::UserResponse(m), e)),
                    None => None,
                };
                close_brace(text, n, inner)
            } else if text_is(&name, "TankCommand") {
                let inner = match parse_tank_command(text, n, k) {
                    Some((c, e)) => Some((SignalEnum::TankCommand(c), e)),
                    None => None,
                };
                close_brace(text, n, inner)
            } else if text_is(&name, "TankMessage") {
                let inner = match parse_tank_message(text, n, k) {
                    Some((m, e)) => Some((SignalEnum::TankMessage(m), e)),
                    None => None,
                };
                close_brace(text, n, inner)
            } else {
                None
            }
        },
    };
    match parsed {
        Some((v, k)) => if skip_ws(text, n, k) == n {
            Some(v)
        } else {
            None
        },
        None => None,
    }
}

} // verus!
