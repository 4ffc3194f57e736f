use vstd::prelude::*;
use crate::comms::CommsMessage;
use crate::identity::{AccountState, AccountStateV, OnChainIdentity, OnChainIdentityV};
use crate::primitives::{
    bytes_eq, clone_bytes, is_valid_address, Account, AccountType, Fatal, Judgement, NetAccount,
    NetworkAddress,
};
use crate::wire::{
    lit_accounts, lit_accounts_vec, lit_ack, lit_ack_prefix, lit_ack_prefix_vec, lit_ack_vec,
    lit_address, lit_address_vec, lit_conn_established, lit_conn_established_vec, lit_data,
    lit_data_vec, lit_display_name, lit_display_name_vec, lit_email, lit_email_vec, lit_error,
    lit_error_frame, lit_error_frame_vec, lit_error_vec, lit_event, lit_event_vec,
    lit_frame_suffix, lit_frame_suffix_vec, lit_jr_mid, lit_jr_mid_vec, lit_jr_prefix,
    lit_jr_prefix_vec, lit_judgement_result, lit_judgement_result_vec, lit_legal_name,
    lit_legal_name_vec, lit_msg_acknowledged, lit_msg_acknowledged_vec,
    lit_new_judgement_request, lit_new_judgement_request_vec, lit_reasonable, lit_reasonable_vec,
    lit_riot, lit_riot_vec, lit_twitter, lit_twitter_vec, lit_web, lit_web_vec,
};

verus! {

// The watcher speaks newline-delimited JSON text frames with the envelope
// `{"event": <string>, "data": <object>}`. The bridge reads a restricted
// JSON shape that covers every envelope the protocol defines: objects,
// strings without escape sequences, `null`, `true`, `false` and number
// lexemes, with objects nested to a small fixed depth. A frame outside
// that shape is answered with the protocol's error envelope, as any other
// malformed frame is.

pub open spec fn is_ws(b: u8) -> bool {
    b == 32 || b == 9 || b == 10 || b == 13
}

pub open spec fn is_num_byte(b: u8) -> bool {
    (48 <= b && b <= 57) || b == 43 || b == 45 || b == 46 || b == 101 || b == 69
}

/// The first position at or after `i` holding no whitespace.
pub open spec fn skip_ws(s: Seq<u8>, i: int) -> int
    decreases s.len() - i,
{
    if 0 <= i && i < s.len() && is_ws(s[i]) {
        skip_ws(s, i + 1)
    } else {
        i
    }
}

/// The first position at or after `i` past the bytes a number lexeme may
/// hold.
pub open spec fn number_end(s: Seq<u8>, i: int) -> int
    decreases s.len() - i,
{
    if 0 <= i && i < s.len() && is_num_byte(s[i]) {
        number_end(s, i + 1)
    } else {
        i
    }
}

/// The position just past the closing quote of a string whose content
/// starts at `i`; an escape or a missing close is a parse failure.
pub open spec fn string_end(s: Seq<u8>, i: int) -> Option<int>
    decreases s.len() - i,
{
    if !(0 <= i && i < s.len()) {
        None
    } else if s[i] == 34 {
        Some(i + 1)
    } else if s[i] == 92 {
        None
    } else {
        string_end(s, i + 1)
    }
}

/// The content and end of the string whose opening quote stands at `i`.
pub open spec fn parse_string(s: Seq<u8>, i: int) -> Option<(Seq<u8>, int)> {
    if 0 <= i && i < s.len() && s[i] == 34 {
        match string_end(s, i + 1) {
            Some(e) => Some((s.subrange(i + 1, e - 1), e)),
            None => None,
        }
    } else {
        None
    }
}

/// The end of the value starting at `i`, within the accepted shape.
pub open spec fn skip_value(s: Seq<u8>, i: int, depth: int) -> Option<int>
    decreases depth, s.len() - i,
{
    if !(0 <= i && i < s.len() && depth >= 0) {
        None
    } else if s[i] == 34 {
        string_end(s, i + 1)
    } else if s[i] == 110 {  // null
        if s.len() - i >= 4 && s[i + 1] == 117 && s[i + 2] == 108 && s[i + 3] == 108 {
            Some(i + 4)
        } else {
            None
        }
    } else if s[i] == 116 {  // true
        if s.len() - i >= 4 && s[i + 1] == 114 && s[i + 2] == 117 && s[i + 3] == 101 {
            Some(i + 4)
        } else {
            None
        }
    } else if s[i] == 102 {  // false
        if s.len() - i >= 5 && s[i + 1] == 97 && s[i + 2] == 108 && s[i + 3] == 115 && s[i + 4]
            == 101 {
            Some(i + 5)
        } else {
            None
        }
    } else if s[i] == 123 {  // object
        if depth <= 0 {
            None
        } else {
            skip_object(s, i, depth - 1)
        }
    } else if s[i] == 45 || (48 <= s[i] && s[i] <= 57) {
        Some(number_end(s, i + 1))
    } else {
        None
    }
}

/// The end of the object whose opening brace stands at `i`.
pub open spec fn skip_object(s: Seq<u8>, i: int, depth: int) -> Option<int>
    decreases depth, s.len() - i,
{
    if !(0 <= i && i < s.len() && s[i] == 123 && depth >= 0) {
        None
    } else {
        let j = skip_ws(s, i + 1);
        if j < s.len() && s[j] == 125 {
            Some(j + 1)
        } else if j > i && j < s.len() {
            skip_members(s, j, depth)
        } else {
            None
        }
    }
}

/// The end of the member list whose first key's quote stands at `i`,
/// including the closing brace.
pub open spec fn skip_members(s: Seq<u8>, i: int, depth: int) -> Option<int>
    decreases depth, s.len() - i,
{
    if !(0 <= i && depth >= 0) {
        None
    } else {
        match parse_string(s, i) {
            None => None,
            Some((_key, after_key)) => {
                let c = skip_ws(s, after_key);
                if !(c < s.len() && s[c] == 58) {  // ':'
                    None
                } else {
                    let v = skip_ws(s, c + 1);
                    if !(v > i && v <= s.len()) {
                        None
                    } else {
                        match skip_value(s, v, depth) {
                            None => None,
                            Some(after_v) => {
                                let t = skip_ws(s, after_v);
                                if t < s.len() && s[t] == 44 {  // ','
                                    let nk = skip_ws(s, t + 1);
                                    if nk > i && nk <= s.len() {
                                        skip_members(s, nk, depth)
                                    } else {
                                        None
                                    }
                                } else if t < s.len() && s[t] == 125 {  // '}'
                                    Some(t + 1)
                                } else {
                                    None
                                }
                            }
                        }
                    }
                }
            }
        }
    }
}

/// Agreement of an executable scan position with its mathematical value.
pub open spec fn opt_pos_matches(r: Option<usize>, m: Option<int>) -> bool {
    match (r, m) {
        (Some(a), Some(b)) => a as int == b,
        (None, None) => true,
        _ => false,
    }
}

/// Agreement of an executable parsed string with its mathematical value.
pub open spec fn opt_str_matches(r: Option<(Vec<u8>, usize)>, m: Option<(Seq<u8>, int)>) -> bool {
    match (r, m) {
        (Some(a), Some(b)) => a.0@ == b.0 && a.1 as int == b.1,
        (None, None) => true,
        _ => false,
    }
}

fn skip_ws_exec(s: &Vec<u8>, i: usize) -> (r: usize)
    requires
        i <= s@.len(),
    ensures
        r == skip_ws(s@, i as int),
        i <= r <= s@.len(),
{
    let mut j = i;
    while j < s.len()
        invariant
            i <= j <= s@.len(),
            skip_ws(s@, i as int) == skip_ws(s@, j as int),
        decreases s@.len() - j,
    {
        let b = s[j];
        if b == 32 || b == 9 || b == 10 || b == 13 {
            j += 1;
        } else {
            return j;
        }
    }
    j
}

fn number_end_exec(s: &Vec<u8>, i: usize) -> (r: usize)
    requires
        i <= s@.len(),
    ensures
        r == number_end(s@, i as int),
        i <= r <= s@.len(),
{
    let mut j = i;
    while j < s.len()
        invariant
            i <= j <= s@.len(),
            number_end(s@, i as int) == number_end(s@, j as int),
        decreases s@.len() - j,
    {
        let b = s[j];
        if (48 <= b && b <= 57) || b == 43 || b == 45 || b == 46 || b == 101 || b == 69 {
            j += 1;
        } else {
            return j;
        }
    }
    j
}

fn string_end_exec(s: &Vec<u8>, i: usize) -> (r: Option<usize>)
    requires
        i <= s@.len(),
    ensures
        opt_pos_matches(r, string_end(s@, i as int)),
        r matches Some(e) ==> i < e <= s@.len(),
{
    let mut j = i;
    while j < s.len()
        invariant
            i <= j <= s@.len(),
            string_end(s@, i as int) == string_end(s@, j as int),
        decreases s@.len() - j,
    {
        if s[j] == 34 {
            return Some(j + 1);
        }
        if s[j] == 92 {
            return None;
        }
        j += 1;
    }
    None
}

/// An owned copy of `s[a..b]`.
fn copy_range(s: &Vec<u8>, a: usize, b: usize) -> (r: Vec<u8>)
    requires
        a <= b <= s@.len(),
    ensures
        r@ == s@.subrange(a as int, b as int),
{
    let mut out: Vec<u8> = Vec::new();
    let mut i = a;
    while i < b
        invariant
            a <= i <= b <= s@.len(),
            out@ == s@.subrange(a as int, i as int),
        decreases b - i,
    {
        out.push(s[i]);
        proof {
            assert(out@ =~= s@.subrange(a as int, i + 1));
        }
        i += 1;
    }
    out
}

fn parse_string_exec(s: &Vec<u8>, i: usize) -> (r: Option<(Vec<u8>, usize)>)
    ensures
        opt_str_matches(r, parse_string(s@, i as int)),
        r matches Some(p) ==> i < p.1 <= s@.len(),
{
    if i < s.len() && s[i] == 34 {
        match string_end_exec(s, i + 1) {
            Some(e) => {
                let content = copy_range(s, i + 1, e - 1);
                Some((content, e))
            }
            None => None,
        }
    } else {
        None
    }
}

fn skip_value_exec(s: &Vec<u8>, i: usize, depth: u8) -> (r: Option<usize>)
    ensures
        opt_pos_matches(r, skip_value(s@, i as int, depth as int)),
        r matches Some(e) ==> e <= s@.len(),
    decreases depth, s@.len() - i,
{
    if !(i < s.len()) {
        return None;
    }
    let b = s[i];
    if b == 34 {
        match string_end_exec(s, i + 1) {
            Some(e) => Some(e),
            None => None,
        }
    } else if b == 110 {
        if s.len() - i >= 4 && s[i + 1] == 117 && s[i + 2] == 108 && s[i + 3] == 108 {
            Some(i + 4)
        } else {
            None
        }
    } else if b == 116 {
        if s.len() - i >= 4 && s[i + 1] == 114 && s[i + 2] == 117 && s[i + 3] == 101 {
            Some(i + 4)
        } else {
            None
        }
    } else if b == 102 {
        if s.len() - i >= 5 && s[i + 1] == 97 && s[i + 2] == 108 && s[i + 3] == 115 && s[i + 4]
            == 101 {
            Some(i + 5)
        } else {
            None
        }
    } else if b == 123 {
        if depth == 0 {
            None
        } else {
            skip_object_exec(s, i, depth - 1)
        }
    } else if b == 45 || (48 <= b && b <= 57) {
        Some(number_end_exec(s, i + 1))
    } else {
        None
    }
}

fn skip_object_exec(s: &Vec<u8>, i: usize, depth: u8) -> (r: Option<usize>)
    ensures
        opt_pos_matches(r, skip_object(s@, i as int, depth as int)),
        r matches Some(e) ==> e <= s@.len(),
    decreases depth, s@.len() - i,
{
    if !(i < s.len() && s[i] == 123) {
        return None;
    }
    let j = skip_ws_exec(s, i + 1);
    if j < s.len() && s[j] == 125 {
        Some(j + 1)
    } else if j > i && j < s.len() {
        skip_members_exec(s, j, depth)
    } else {
        None
    }
}

fn skip_members_exec(s: &Vec<u8>, i: usize, depth: u8) -> (r: Option<usize>)
    ensures
        opt_pos_matches(r, skip_members(s@, i as int, depth as int)),
        r matches Some(e) ==> e <= s@.len(),
    decreases depth, s@.len() - i,
{
    match parse_string_exec(s, i) {
        None => None,
        Some((_key, after_key)) => {
            let c = skip_ws_exec(s, after_key);
            if !(c < s.len() && s[c] == 58) {
                return None;
            }
            let v = skip_ws_exec(s, c + 1);
            if !(v > i && v <= s.len()) {
                return None;
            }
            match skip_value_exec(s, v, depth) {
                None => None,
                Some(after_v) => {
                    let t = skip_ws_exec(s, after_v);
                    if t < s.len() && s[t] == 44 {
                        let nk = skip_ws_exec(s, t + 1);
                        if nk > i && nk <= s.len() {
                            skip_members_exec(s, nk, depth)
                        } else {
                            None
                        }
                    } else if t < s.len() && s[t] == 125 {
                        Some(t + 1)
                    } else {
                        None
                    }
                }
            }
        }
    }
}

pub open spec fn opt_seq_view(o: Option<Vec<u8>>) -> Option<Seq<u8>> {
    match o {
        Some(v) => Some(v@),
        None => None,
    }
}

pub open spec fn opt_upos_view(o: Option<usize>) -> Option<int> {
    match o {
        Some(v) => Some(v as int),
        None => None,
    }
}

/// Scan of one object's members for two known keys: the member under
/// `str_key` must be a string and its content is kept; the member under
/// `pos_key` may be any accepted value and its start position is kept;
/// every other member is skipped. Yields the keys found and the position
/// past the object.
pub open spec fn obj_members(
    s: Seq<u8>,
    i: int,
    depth: int,
    str_key: Seq<u8>,
    pos_key: Seq<u8>,
    sv: Option<Seq<u8>>,
    pv: Option<int>,
) -> Option<(Option<Seq<u8>>, Option<int>, int)>
    decreases s.len() - i,
{
    if !(0 <= i) {
        None
    } else {
        match parse_string(s, i) {
            None => None,
            Some((key, after_key)) => {
                let c = skip_ws(s, after_key);
                if !(c < s.len() && s[c] == 58) {
                    None
                } else {
                    let v = skip_ws(s, c + 1);
                    if !(v > i && v <= s.len()) {
                        None
                    } else {
                        let step: Option<(Option<Seq<u8>>, Option<int>, int)> = if key
                            == str_key {
                            match parse_string(s, v) {
                                Some((content, e)) => Some((Some(content), pv, e)),
                                None => None,
                            }
                        } else if key == pos_key {
                            match skip_value(s, v, depth) {
                                Some(e) => Some((sv, Some(v), e)),
                                None => None,
                            }
                        } else {
                            match skip_value(s, v, depth) {
                                Some(e) => Some((sv, pv, e)),
                                None => None,
                            }
                        };
                        match step {
                            None => None,
                            Some((sv2, pv2, after_v)) => {
                                let t = skip_ws(s, after_v);
                                if t < s.len() && s[t] == 44 {
                                    let nk = skip_ws(s, t + 1);
                                    if nk > i && nk <= s.len() {
                                        obj_members(s, nk, depth, str_key, pos_key, sv2, pv2)
                                    } else {
                                        None
                                    }
                                } else if t < s.len() && s[t] == 125 {
                                    Some((sv2, pv2, t + 1))
                                } else {
                                    None
                                }
                            }
                        }
                    }
                }
            }
        }
    }
}

pub open spec fn obj_res_matches(
    r: Option<(Option<Vec<u8>>, Option<usize>, usize)>,
    m: Option<(Option<Seq<u8>>, Option<int>, int)>,
) -> bool {
    match (r, m) {
        (Some(a), Some(b)) => opt_seq_view(a.0) == b.0 && opt_upos_view(a.1) == b.1 && a.2 as int
            == b.2,
        (None, None) => true,
        _ => false,
    }
}

fn obj_members_exec(
    s: &Vec<u8>,
    i: usize,
    depth: u8,
    str_key: &Vec<u8>,
    pos_key: &Vec<u8>,
    sv: Option<Vec<u8>>,
    pv: Option<usize>,
) -> (r: Option<(Option<Vec<u8>>, Option<usize>, usize)>)
    ensures
        obj_res_matches(
            r,
            obj_members(
                s@,
                i as int,
                depth as int,
                str_key@,
                pos_key@,
                opt_seq_view(sv),
                opt_upos_view(pv),
            ),
        ),
        r matches Some(t) ==> t.2 <= s@.len(),
    decreases s@.len() - i,
{
    match parse_string_exec(s, i) {
        None => None,
        Some((key, after_key)) => {
            let c = skip_ws_exec(s, after_key);
            if !(c < s.len() && s[c] == 58) {
                return None;
            }
            let v = skip_ws_exec(s, c + 1);
            if !(v > i && v <= s.len()) {
                return None;
            }
            let step: Option<(Option<Vec<u8>>, Option<usize>, usize)> = if bytes_eq(
                &key,
                str_key,
            ) {
                match parse_string_exec(s, v) {
                    Some((content, e)) => Some((Some(content), pv, e)),
                    None => None,
                }
            } else if bytes_eq(&key, pos_key) {
                match skip_value_exec(s, v, depth) {
                    Some(e) => Some((sv, Some(v), e)),
                    None => None,
                }
            } else {
                match skip_value_exec(s, v, depth) {
                    Some(e) => Some((sv, pv, e)),
                    None => None,
                }
            };
            match step {
                None => None,
                Some((sv2, pv2, after_v)) => {
                    let t = skip_ws_exec(s, after_v);
                    if t < s.len() && s[t] == 44 {
                        let nk = skip_ws_exec(s, t + 1);
                        if nk > i && nk <= s.len() {
                            obj_members_exec(s, nk, depth, str_key, pos_key, sv2, pv2)
                        } else {
                            None
                        }
                    } else if t < s.len() && s[t] == 125 {
                        Some((sv2, pv2, t + 1))
                    } else {
                        None
                    }
                }
            }
        }
    }
}

/// The claimed accounts of a judgement request, as its wire object lists
/// them: a string claims the account, null or absence claims none.
#[derive(Debug)]
pub struct Accounts {
    pub display_name: Option<Vec<u8>>,
    pub legal_name: Option<Vec<u8>>,
    pub email: Option<Vec<u8>>,
    pub web: Option<Vec<u8>>,
    pub twitter: Option<Vec<u8>>,
    pub matrix: Option<Vec<u8>>,
}

/// The mathematical value of an `Accounts`.
#[verifier::ext_equal]
pub struct AccountsV {
    pub display_name: Option<Seq<u8>>,
    pub legal_name: Option<Seq<u8>>,
    pub email: Option<Seq<u8>>,
    pub web: Option<Seq<u8>>,
    pub twitter: Option<Seq<u8>>,
    pub matrix: Option<Seq<u8>>,
}

impl View for Accounts {
    type V = AccountsV;

    open spec fn view(&self) -> AccountsV {
        AccountsV {
            display_name: opt_seq_view(self.display_name),
            legal_name: opt_seq_view(self.legal_name),
            email: opt_seq_view(self.email),
            web: opt_seq_view(self.web),
            twitter: opt_seq_view(self.twitter),
            matrix: opt_seq_view(self.matrix),
        }
    }
}

pub open spec fn empty_accounts() -> AccountsV {
    AccountsV {
        display_name: None,
        legal_name: None,
        email: None,
        web: None,
        twitter: None,
        matrix: None,
    }
}

/// A known account field set from its wire value: a string sets it, an
/// explicit null clears it, anything else is outside the protocol.
pub open spec fn acc_field(s: Seq<u8>, v: int) -> Option<(Option<Seq<u8>>, int)> {
    if 0 <= v && v < s.len() && s[v] == 34 {
        match parse_string(s, v) {
            Some((content, e)) => Some((Some(content), e)),
            None => None,
        }
    } else if 0 <= v && v < s.len() && s[v] == 110 {
        if s.len() - v >= 4 && s[v + 1] == 117 && s[v + 2] == 108 && s[v + 3] == 108 {
            Some((None, v + 4))
        } else {
            None
        }
    } else {
        None
    }
}

/// Scan of the accounts object's members: each known key sets its field,
/// unknown members are skipped.
pub open spec fn acc_members(s: Seq<u8>, i: int, depth: int, acc: AccountsV) -> Option<
    (AccountsV, int),
>
    decreases s.len() - i,
{
    if !(0 <= i) {
        None
    } else {
        match parse_string(s, i) {
            None => None,
            Some((key, after_key)) => {
                let c = skip_ws(s, after_key);
                if !(c < s.len() && s[c] == 58) {
                    None
                } else {
                    let v = skip_ws(s, c + 1);
                    if !(v > i && v <= s.len()) {
                        None
                    } else {
                        let step: Option<(AccountsV, int)> = if key == lit_display_name() {
                            match acc_field(s, v) {
                                Some((f, e)) => Some((AccountsV { display_name: f, ..acc }, e)),
                                None => None,
                            }
                        } else if key == lit_legal_name() {
                            match acc_field(s, v) {
                                Some((f, e)) => Some((AccountsV { legal_name: f, ..acc }, e)),
                                None => None,
                            }
                        } else if key == lit_email() {
                            match acc_field(s, v) {
                                Some((f, e)) => Some((AccountsV { email: f, ..acc }, e)),
                                None => None,
                            }
                        } else if key == lit_web() {
                            match acc_field(s, v) {
                                Some((f, e)) => Some((AccountsV { web: f, ..acc }, e)),
                                None => None,
                            }
                        } else if key == lit_twitter() {
                            match acc_field(s, v) {
                                Some((f, e)) => Some((AccountsV { twitter: f, ..acc }, e)),
                                None => None,
                            }
                        } else if key == lit_riot() {
                            match acc_field(s, v) {
                                Some((f, e)) => Some((AccountsV { matrix: f, ..acc }, e)),
                                None => None,
                            }
                        } else {
                            match skip_value(s, v, depth) {
                                Some(e) => Some((acc, e)),
                                None => None,
                            }
                        };
                        match step {
                            None => None,
                            Some((acc2, after_v)) => {
                                let t = skip_ws(s, after_v);
                                if t < s.len() && s[t] == 44 {
                                    let nk = skip_ws(s, t + 1);
                                    if nk > i && nk <= s.len() {
                                        acc_members(s, nk, depth, acc2)
                                    } else {
                                        None
                                    }
                                } else if t < s.len() && s[t] == 125 {
                                    Some((acc2, t + 1))
                                } else {
                                    None
                                }
                            }
                        }
                    }
                }
            }
        }
    }
}

pub open spec fn acc_res_matches(r: Option<(Accounts, usize)>, m: Option<(AccountsV, int)>) -> bool {
    match (r, m) {
        (Some(a), Some(b)) => a.0@ == b.0 && a.1 as int == b.1,
        (None, None) => true,
        _ => false,
    }
}

fn acc_field_exec(s: &Vec<u8>, v: usize) -> (r: Option<(Option<Vec<u8>>, usize)>)
    ensures
        match (r, acc_field(s@, v as int)) {
            (Some(a), Some(b)) => opt_seq_view(a.0) == b.0 && a.1 as int == b.1,
            (None, None) => true,
            _ => false,
        },
        r matches Some(p) ==> p.1 <= s@.len(),
{
    if v < s.len() && s[v] == 34 {
        match parse_string_exec(s, v) {
            Some((content, e)) => Some((Some(content), e)),
            None => None,
        }
    } else if v < s.len() && s[v] == 110 {
        if s.len() - v >= 4 && s[v + 1] == 117 && s[v + 2] == 108 && s[v + 3] == 108 {
            Some((None, v + 4))
        } else {
            None
        }
    } else {
        None
    }
}

fn acc_members_exec(s: &Vec<u8>, i: usize, depth: u8, acc: Accounts) -> (r: Option<
    (Accounts, usize),
>)
    ensures
        acc_res_matches(r, acc_members(s@, i as int, depth as int, acc@)),
        r matches Some(p) ==> p.1 <= s@.len(),
    decreases s@.len() - i,
{
    match parse_string_exec(s, i) {
        None => None,
        Some((key, after_key)) => {
            let c = skip_ws_exec(s, after_key);
            if !(c < s.len() && s[c] == 58) {
                return None;
            }
            let v = skip_ws_exec(s, c + 1);
            if !(v > i && v <= s.len()) {
                return None;
            }
            let step: Option<(Accounts, usize)> = if bytes_eq(&key, &lit_display_name_vec()) {
                match acc_field_exec(s, v) {
                    Some((f, e)) => Some((Accounts { display_name: f, ..acc }, e)),
                    None => None,
                }
            } else if bytes_eq(&key, &lit_legal_name_vec()) {
                match acc_field_exec(s, v) {
                    Some((f, e)) => Some((Accounts { legal_name: f, ..acc }, e)),
                    None => None,
                }
            } else if bytes_eq(&key, &lit_email_vec()) {
                match acc_field_exec(s, v) {
                    Some((f, e)) => Some((Accounts { email: f, ..acc }, e)),
                    None => None,
                }
            } else if bytes_eq(&key, &lit_web_vec()) {
                match acc_field_exec(s, v) {
                    Some((f, e)) => Some((Accounts { web: f, ..acc }, e)),
                    None => None,
                }
            } else if bytes_eq(&key, &lit_twitter_vec()) {
                match acc_field_exec(s, v) {
                    Some((f, e)) => Some((Accounts { twitter: f, ..acc }, e)),
                    None => None,
                }
            } else if bytes_eq(&key, &lit_riot_vec()) {
                match acc_field_exec(s, v) {
                    Some((f, e)) => Some((Accounts { matrix: f, ..acc }, e)),
                    None => None,
                }
            } else {
                match skip_value_exec(s, v, depth) {
                    Some(e) => Some((acc, e)),
                    None => None,
                }
            };
            match step {
                None => None,
                Some((acc2, after_v)) => {
                    let t = skip_ws_exec(s, after_v);
                    if t < s.len() && s[t] == 44 {
                        let nk = skip_ws_exec(s, t + 1);
                        if nk > i && nk <= s.len() {
                            acc_members_exec(s, nk, depth, acc2)
                        } else {
                            None
                        }
                    } else if t < s.len() && s[t] == 125 {
                        Some((acc2, t + 1))
                    } else {
                        None
                    }
                }
            }
        }
    }
}

/// The envelope of a frame: its event name and the start of its data
/// value, accepted only when the whole frame is one envelope object.
pub open spec fn spec_parse_envelope(s: Seq<u8>) -> Option<(Seq<u8>, int)> {
    let i = skip_ws(s, 0);
    if 0 <= i && i < s.len() && s[i] == 123 {
        let j = skip_ws(s, i + 1);
        if j > i && j < s.len() {
            match obj_members(s, j, 8, lit_event(), lit_data(), None, None) {
                Some((Some(ev), Some(d), end)) => if skip_ws(s, end) == s.len() {
                    Some((ev, d))
                } else {
                    None
                },
                _ => None,
            }
        } else {
            None
        }
    } else {
        None
    }
}

pub fn parse_envelope(s: &Vec<u8>) -> (r: Option<(Vec<u8>, usize)>)
    ensures
        match (r, spec_parse_envelope(s@)) {
            (Some(a), Some(b)) => a.0@ == b.0 && a.1 as int == b.1,
            (None, None) => true,
            _ => false,
        },
{
    let i = skip_ws_exec(s, 0);
    if i < s.len() && s[i] == 123 {
        let j = skip_ws_exec(s, i + 1);
        if j > i && j < s.len() {
            match obj_members_exec(s, j, 8, &lit_event_vec(), &lit_data_vec(), None, None) {
                Some((Some(ev), Some(d), end)) => {
                    if skip_ws_exec(s, end) == s.len() {
                        Some((ev, d))
                    } else {
                        None
                    }
                }
                _ => None,
            }
        } else {
            None
        }
    } else {
        None
    }
}

/// A judgement request's payload: the claimed address and accounts.
pub open spec fn spec_parse_request(s: Seq<u8>, i: int) -> Option<(Seq<u8>, AccountsV)> {
    if 0 <= i && i < s.len() && s[i] == 123 {
        let j = skip_ws(s, i + 1);
        if !(j > i && j < s.len()) {
            None
        } else {
            match obj_members(s, j, 8, lit_address(), lit_accounts(), None, None) {
                Some((Some(addr), Some(apos), _end)) => {
                    if 0 <= apos && apos < s.len() && s[apos] == 123 {
                        let k = skip_ws(s, apos + 1);
                        if k < s.len() && s[k] == 125 {
                            Some((addr, empty_accounts()))
                        } else if k > apos && k < s.len() {
                            match acc_members(s, k, 8, empty_accounts()) {
                                Some((acc, _)) => Some((addr, acc)),
                                None => None,
                            }
                        } else {
                            None
                        }
                    } else {
                        None
                    }
                }
                _ => None,
            }
        }
    } else {
        None
    }
}

pub fn parse_request(s: &Vec<u8>, i: usize) -> (r: Option<(Vec<u8>, Accounts)>)
    requires
        i <= s@.len(),
    ensures
        match (r, spec_parse_request(s@, i as int)) {
            (Some(a), Some(b)) => a.0@ == b.0 && a.1@ == b.1,
            (None, None) => true,
            _ => false,
        },
{
    if i < s.len() && s[i] == 123 {
        let j = skip_ws_exec(s, i + 1);
        if !(j > i && j < s.len()) {
            return None;
        }
        match obj_members_exec(s, j, 8, &lit_address_vec(), &lit_accounts_vec(), None, None) {
            Some((Some(addr), Some(apos), _end)) => {
                if apos < s.len() && s[apos] == 123 {
                    let k = skip_ws_exec(s, apos + 1);
                    if k < s.len() && s[k] == 125 {
                        Some(
                            (
                                addr,
                                Accounts {
                                    display_name: None,
                                    legal_name: None,
                                    email: None,
                                    web: None,
                                    twitter: None,
                                    matrix: None,
                                },
                            ),
                        )
                    } else if k > apos && k < s.len() {
                        match acc_members_exec(
                            s,
                            k,
                            8,
                            Accounts {
                                display_name: None,
                                legal_name: None,
                                email: None,
                                web: None,
                                twitter: None,
                                matrix: None,
                            },
                        ) {
                            Some((acc, _)) => Some((addr, acc)),
                            None => None,
                        }
                    } else {
                        None
                    }
                } else {
                    None
                }
            }
            _ => None,
        }
    } else {
        None
    }
}

/// The event names of the watcher protocol's envelopes.
#[derive(Clone, Copy, PartialEq, Eq, Structural, Debug)]
pub enum EventType {
    Ack,
    Error,
    NewJudgementRequest,
    JudgementResult,
}

/// The event a name denotes; an unrecognized name is outside the protocol.
pub open spec fn event_of(name: Seq<u8>) -> Option<EventType> {
    if name == lit_ack() {
        Some(EventType::Ack)
    } else if name == lit_error() {
        Some(EventType::Error)
    } else if name == lit_new_judgement_request() {
        Some(EventType::NewJudgementRequest)
    } else if name == lit_judgement_result() {
        Some(EventType::JudgementResult)
    } else {
        None
    }
}

pub fn event_of_exec(name: &Vec<u8>) -> (r: Option<EventType>)
    ensures
        r == event_of(name@),
{
    if bytes_eq(name, &lit_ack_vec()) {
        Some(EventType::Ack)
    } else if bytes_eq(name, &lit_error_vec()) {
        Some(EventType::Error)
    } else if bytes_eq(name, &lit_new_judgement_request_vec()) {
        Some(EventType::NewJudgementRequest)
    } else if bytes_eq(name, &lit_judgement_result_vec()) {
        Some(EventType::JudgementResult)
    } else {
        None
    }
}

/// Appends one byte vector to another.
fn append_bytes(out: &mut Vec<u8>, s: &Vec<u8>)
    ensures
        final(out)@ == old(out)@ + s@,
{
    let mut i: usize = 0;
    while i < s.len()
        invariant
            0 <= i <= s@.len(),
            out@ == old(out)@ + s@.subrange(0, i as int),
        decreases s@.len() - i,
    {
        out.push(s[i]);
        proof {
            assert(out@ =~= old(out)@ + s@.subrange(0, i + 1));
        }
        i += 1;
    }
    proof {
        assert(out@ =~= old(out)@ + s@);
    }
}

/// The acknowledgement envelope carrying a result text.
pub fn ack_frame(result_text: &Vec<u8>) -> (r: Vec<u8>)
    ensures
        r@ == lit_ack_prefix() + result_text@ + lit_frame_suffix(),
{
    let mut out = lit_ack_prefix_vec();
    append_bytes(&mut out, result_text);
    append_bytes(&mut out, &lit_frame_suffix_vec());
    out
}

/// The error envelope sent for every malformed or unconvertible frame.
pub fn error_frame() -> (r: Vec<u8>)
    ensures
        r@ == lit_error_frame(),
{
    lit_error_frame_vec()
}

pub open spec fn judgement_name(j: Judgement) -> Seq<u8> {
    match j {
        Judgement::Reasonable => lit_reasonable(),
    }
}

/// The judgement-result envelope for an address.
pub open spec fn spec_judgement_frame(addr: Seq<u8>, j: Judgement) -> Seq<u8> {
    lit_jr_prefix() + addr + lit_jr_mid() + judgement_name(j) + lit_frame_suffix()
}

pub fn judgement_result_frame(address: &NetAccount, judgement: Judgement) -> (r: Vec<u8>)
    ensures
        r@ == spec_judgement_frame(address@, judgement),
{
    let mut out = lit_jr_prefix_vec();
    append_bytes(&mut out, address.as_bytes());
    append_bytes(&mut out, &lit_jr_mid_vec());
    match judgement {
        Judgement::Reasonable => append_bytes(&mut out, &lit_reasonable_vec()),
    }
    append_bytes(&mut out, &lit_frame_suffix_vec());
    proof {
        assert(out@ =~= spec_judgement_frame(address@, judgement));
    }
    out
}

/// A parsed judgement request: a candidate identity before conversion.
#[derive(Debug)]
pub struct JudgementRequest {
    pub address: Vec<u8>,
    pub accounts: Accounts,
}

/// An account slot of a converted identity conforms to its claimed wire
/// value: claimed accounts get a fresh state around the claimed value, and
/// unclaimed slots stay empty.
pub open spec fn slot_conforms(
    st: Option<AccountStateV>,
    v: Option<Seq<u8>>,
    ty: AccountType,
) -> bool {
    match (st, v) {
        (None, None) => true,
        (Some(st), Some(a)) => st.account == a && st.account_ty == ty && st.account_validity
            == crate::identity::AccountStatus::Unknown && st.challenge_status
            == crate::primitives::ChallengeStatus::Unconfirmed && !st.skip_inform
            && st.challenge.len() == 32,
        _ => false,
    }
}

/// A converted identity conforms to the request it came from: same
/// address, same names, and a fresh account state for exactly the claimed
/// accounts. The challenge tokens are fresh randomness and only their
/// length is determined.
pub open spec fn ident_conforms(id: OnChainIdentityV, addr: Seq<u8>, acc: AccountsV) -> bool {
    id.network_address.address == addr && id.network_address.pub_key == addr && id.display_name
        == acc.display_name && id.legal_name == acc.legal_name && slot_conforms(
        id.email,
        acc.email,
        AccountType::Email,
    ) && slot_conforms(id.web, acc.web, AccountType::Web) && slot_conforms(
        id.twitter,
        acc.twitter,
        AccountType::Twitter,
    ) && slot_conforms(id.matrix, acc.matrix, AccountType::Matrix)
}

fn fresh_slot(v: Option<Vec<u8>>, ty: AccountType) -> (r: Option<AccountState>)
    ensures
        slot_conforms(crate::identity::opt_state_view(r), opt_seq_view(v), ty),
{
    match v {
        Some(bytes) => Some(AccountState::new(Account { bytes }, ty)),
        None => None,
    }
}

/// Converts a judgement request into a candidate pending identity; fails
/// exactly on an address outside the accepted alphabet or length bounds.
pub fn identity_from_request(req: JudgementRequest) -> (r: Result<
    OnChainIdentity,
    crate::primitives::ConvertError,
>)
    ensures
        r is Ok <==> is_valid_address(req.address@),
        r matches Ok(id) ==> ident_conforms(id@, req.address@, req.accounts@),
{
    let network_address = match NetworkAddress::try_from(NetAccount { bytes: req.address }) {
        Ok(a) => a,
        Err(e) => {
            return Err(e);
        }
    };
    let accs = req.accounts;
    Ok(
        OnChainIdentity {
            network_address,
            display_name: accs.display_name,
            legal_name: accs.legal_name,
            email: fresh_slot(accs.email, AccountType::Email),
            web: fresh_slot(accs.web, AccountType::Web),
            twitter: fresh_slot(accs.twitter, AccountType::Twitter),
            matrix: fresh_slot(accs.matrix, AccountType::Matrix),
        },
    )
}

/// What the bridge reacts to: a bus command from the registry, or what the
/// watcher link produced — a text frame, some other frame, or a receive
/// failure.
#[derive(Debug)]
pub enum BridgeEvent {
    Bus(CommsMessage),
    Frame(Vec<u8>),
    NonText,
    ReceiveFailure,
}

/// What the bridge asks of the surrounding process: send a frame over the
/// link, hand a converted identity to the registry, or surface a
/// disconnect once.
#[derive(Debug)]
pub enum BridgeAction {
    SendFrame(Vec<u8>),
    Forward(OnChainIdentity),
    ReportDisconnect,
}

/// The mathematical value of a `BridgeAction`.
#[verifier::ext_equal]
pub enum BridgeActionV {
    SendFrame(Seq<u8>),
    Forward(OnChainIdentityV),
    ReportDisconnect,
}

impl View for BridgeAction {
    type V = BridgeActionV;

    open spec fn view(&self) -> BridgeActionV {
        match *self {
            BridgeAction::SendFrame(f) => BridgeActionV::SendFrame(f@),
            BridgeAction::Forward(id) => BridgeActionV::Forward(id@),
            BridgeAction::ReportDisconnect => BridgeActionV::ReportDisconnect,
        }
    }
}

pub open spec fn action_views(s: Seq<BridgeAction>) -> Seq<BridgeActionV> {
    s.map_values(|a: BridgeAction| a@)
}

/// What a received text frame must be answered with: a malformed envelope
/// or payload gets exactly one error envelope and nothing reaches the
/// registry; a convertible judgement request gets an acknowledgement and
/// exactly one identity forwarded; a recognized event of another kind is
/// ignored.
pub open spec fn frame_reply_conforms(s: Seq<u8>, acts: Seq<BridgeActionV>) -> bool {
    match spec_parse_envelope(s) {
        None => acts =~= seq![BridgeActionV::SendFrame(lit_error_frame())],
        Some((ev, dpos)) => match event_of(ev) {
            None => acts =~= seq![BridgeActionV::SendFrame(lit_error_frame())],
            Some(EventType::NewJudgementRequest) => match spec_parse_request(s, dpos) {
                None => acts =~= seq![BridgeActionV::SendFrame(lit_error_frame())],
                Some((addr, acc)) => if is_valid_address(addr) {
                    acts.len() == 2 && acts[0] == BridgeActionV::SendFrame(
                        lit_ack_prefix() + lit_msg_acknowledged() + lit_frame_suffix(),
                    ) && (acts[1] matches BridgeActionV::Forward(id) && ident_conforms(
                        id,
                        addr,
                        acc,
                    ))
                } else {
                    acts =~= seq![BridgeActionV::SendFrame(lit_error_frame())]
                },
            },
            Some(_) => acts =~= Seq::<BridgeActionV>::empty(),
        },
    }
}

/// The watcher protocol bridge's own state: whether the current disconnect
/// episode was already surfaced, so a broken link is reported once and not
/// on every poll.
pub struct Bridge {
    pub receiver_error: bool,
}

impl Bridge {
    pub fn new() -> (r: Bridge)
        ensures
            !r.receiver_error,
    {
        Bridge { receiver_error: false }
    }

    /// One turn of the bridge loop: a judge-identity command from the
    /// registry becomes exactly one judgement-result frame; any other bus
    /// message here is the fatal unrecognized-message error; a text frame
    /// is parsed and answered as `frame_reply_conforms` says; a non-text
    /// frame is answered with the error envelope; a receive failure is
    /// surfaced once per disconnect episode, and any successfully received
    /// frame ends the episode.
    pub fn step(&mut self, event: BridgeEvent) -> (r: Result<Vec<BridgeAction>, Fatal>)
        ensures
            event matches BridgeEvent::Bus(m) ==> (final(self).receiver_error == old(self).receiver_error && (match m {
                CommsMessage::JudgeIdentity { network_address, judgement } => r matches Ok(acts)
                    && action_views(acts@) =~= seq![BridgeActionV::SendFrame(
                    spec_judgement_frame(network_address@.address, judgement),
                )],
                _ => r == Err::<Vec<BridgeAction>, Fatal>(Fatal::UnrecognizedMessage),
            })),
            event matches BridgeEvent::Frame(payload) ==> (r matches Ok(acts) && !final(self).receiver_error && frame_reply_conforms(payload@, action_views(acts@))),
            event matches BridgeEvent::NonText ==> (r matches Ok(acts) && !final(self).receiver_error && action_views(acts@) =~= seq![BridgeActionV::SendFrame(
                lit_error_frame(),
            )]),
            event matches BridgeEvent::ReceiveFailure ==> (r matches Ok(acts) && final(self).receiver_error && action_views(acts@) =~= (if old(self).receiver_error {
                Seq::<BridgeActionV>::empty()
            } else {
                seq![BridgeActionV::ReportDisconnect]
            })),
    {
        match event {
            BridgeEvent::Bus(m) => {
                match m {
                    CommsMessage::JudgeIdentity { network_address, judgement } => {
                        let frame = judgement_result_frame(network_address.address(), judgement);
                        let mut acts: Vec<BridgeAction> = Vec::new();
                        acts.push(BridgeAction::SendFrame(frame));
                        Ok(acts)
                    }
                    _ => Err(Fatal::UnrecognizedMessage),
                }
            }
            BridgeEvent::Frame(payload) => {
                self.receiver_error = false;
                match parse_envelope(&payload) {
                    None => {
                        let mut acts: Vec<BridgeAction> = Vec::new();
                        acts.push(BridgeAction::SendFrame(error_frame()));
                        Ok(acts)
                    }
                    Some((ev_name, dpos)) => {
                        match event_of_exec(&ev_name) {
                            None => {
                                let mut acts: Vec<BridgeAction> = Vec::new();
                                acts.push(BridgeAction::SendFrame(error_frame()));
                                Ok(acts)
                            }
                            Some(EventType::NewJudgementRequest) => {
                                if dpos > payload.len() {
                                    let mut acts: Vec<BridgeAction> = Vec::new();
                                    acts.push(BridgeAction::SendFrame(error_frame()));
                                    return Ok(acts);
                                }
                                match parse_request(&payload, dpos) {
                                    None => {
                                        let mut acts: Vec<BridgeAction> = Vec::new();
                                        acts.push(BridgeAction::SendFrame(error_frame()));
                                        Ok(acts)
                                    }
                                    Some((address, accounts)) => {
                                        match identity_from_request(
                                            JudgementRequest { address, accounts },
                                        ) {
                                            Ok(ident) => {
                                                let mut acts: Vec<BridgeAction> = Vec::new();
                                                acts.push(
                                                    BridgeAction::SendFrame(
                                                        ack_frame(&lit_msg_acknowledged_vec()),
                                                    ),
                                                );
                                                acts.push(BridgeAction::Forward(ident));
                                                Ok(acts)
                                            }
                                            Err(_) => {
                                                let mut acts: Vec<BridgeAction> = Vec::new();
                                                acts.push(BridgeAction::SendFrame(error_frame()));
                                                Ok(acts)
                                            }
                                        }
                                    }
                                }
                            }
                            Some(_) => Ok(Vec::new()),
                        }
                    }
                }
            }
            BridgeEvent::NonText => {
                self.receiver_error = false;
                let mut acts: Vec<BridgeAction> = Vec::new();
                acts.push(BridgeAction::SendFrame(error_frame()));
                Ok(acts)
            }
            BridgeEvent::ReceiveFailure => {
                let was = self.receiver_error;
                self.receiver_error = true;
                let mut acts: Vec<BridgeAction> = Vec::new();
                if !was {
                    acts.push(BridgeAction::ReportDisconnect);
                }
                Ok(acts)
            }
        }
    }

    /// The liveness acknowledgement sent right after the link comes up.
    pub fn connection_ack() -> (r: Vec<u8>)
        ensures
            r@ == lit_ack_prefix() + lit_conn_established() + lit_frame_suffix(),
    {
        ack_frame(&lit_conn_established_vec())
    }
}

} // verus!
