use vstd::prelude::*;

verus! {

// The byte constants of the watcher wire protocol: every key,
// event name and frame fragment the bridge reads or writes, each
// as its mathematical byte sequence beside an executable builder.
/// The bytes of `event`.
pub open spec fn lit_event() -> Seq<u8> {
    seq![101u8, 118, 101, 110, 116]
}

/// An owned copy of the bytes of `event`.
pub fn lit_event_vec() -> (r: Vec<u8>)
    ensures
        r@ == lit_event(),
{
    let mut v: Vec<u8> = Vec::new();
    v.push(101);
    v.push(118);
    v.push(101);
    v.push(110);
    v.push(116);
    proof {
        assert(v@ =~= lit_event());
    }
    v
}

/// The bytes of `data`.
pub open spec fn lit_data() -> Seq<u8> {
    seq![100u8, 97, 116, 97]
}

/// An owned copy of the bytes of `data`.
pub fn lit_data_vec() -> (r: Vec<u8>)
    ensures
        r@ == lit_data(),
{
    let mut v: Vec<u8> = Vec::new();
    v.push(100);
    v.push(97);
    v.push(116);
    v.push(97);
    proof {
        assert(v@ =~= lit_data());
    }
    v
}

/// The bytes of `address`.
pub open spec fn lit_address() -> Seq<u8> {
    seq![97u8, 100, 100, 114, 101, 115, 115]
}

/// An owned copy of the bytes of `address`.
pub fn lit_address_vec() -> (r: Vec<u8>)
    ensures
        r@ == lit_address(),
{
    let mut v: Vec<u8> = Vec::new();
    v.push(97);
    v.push(100);
    v.push(100);
    v.push(114);
    v.push(101);
    v.push(115);
    v.push(115);
    proof {
        assert(v@ =~= lit_address());
    }
    v
}

/// The bytes of `accounts`.
pub open spec fn lit_accounts() -> Seq<u8> {
    seq![97u8, 99, 99, 111, 117, 110, 116, 115]
}

/// An owned copy of the bytes of `accounts`.
pub fn lit_accounts_vec() -> (r: Vec<u8>)
    ensures
        r@ == lit_accounts(),
{
    let mut v: Vec<u8> = Vec::new();
    v.push(97);
    v.push(99);
    v.push(99);
    v.push(111);
    v.push(117);
    v.push(110);
    v.push(116);
    v.push(115);
    proof {
        assert(v@ =~= lit_accounts());
    }
    v
}

/// The bytes of `display_name`.
pub open spec fn lit_display_name() -> Seq<u8> {
    seq![100u8, 105, 115, 112, 108, 97, 121, 95, 110, 97, 109, 101]
}

/// An owned copy of the bytes of `display_name`.
pub fn lit_display_name_vec() -> (r: Vec<u8>)
    ensures
        r@ == lit_display_name(),
{
    let mut v: Vec<u8> = Vec::new();
    v.push(100);
    v.push(105);
    v.push(115);
    v.push(112);
    v.push(108);
    v.push(97);
    v.push(121);
    v.push(95);
    v.push(110);
    v.push(97);
    v.push(109);
    v.push(101);
    proof {
        assert(v@ =~= lit_display_name());
    }
    v
}

/// The bytes of `legal_name`.
pub open spec fn lit_legal_name() -> Seq<u8> {
    seq![108u8, 101, 103, 97, 108, 95, 110, 97, 109, 101]
}

/// An owned copy of the bytes of `legal_name`.
pub fn lit_legal_name_vec() -> (r: Vec<u8>)
    ensures
        r@ == lit_legal_name(),
{
    let mut v: Vec<u8> = Vec::new();
    v.push(108);
    v.push(101);
    v.push(103);
    v.push(97);
    v.push(108);
    v.push(95);
    v.push(110);
    v.push(97);
    v.push(109);
    v.push(101);
    proof {
        assert(v@ =~= lit_legal_name());
    }
    v
}

/// The bytes of `email`.
pub open spec fn lit_email() -> Seq<u8> {
    seq![101u8, 109, 97, 105, 108]
}

/// An owned copy of the bytes of `email`.
pub fn lit_email_vec() -> (r: Vec<u8>)
    ensures
        r@ == lit_email(),
{
    let mut v: Vec<u8> = Vec::new();
    v.push(101);
    v.push(109);
    v.push(97);
    v.push(105);
    v.push(108);
    proof {
        assert(v@ =~= lit_email());
    }
    v
}

/// The bytes of `web`.
pub open spec fn lit_web() -> Seq<u8> {
    seq![119u8, 101, 98]
}

/// An owned copy of the bytes of `web`.
pub fn lit_web_vec() -> (r: Vec<u8>)
    ensures
        r@ == lit_web(),
{
    let mut v: Vec<u8> = Vec::new();
    v.push(119);
    v.push(101);
    v.push(98);
    proof {
        assert(v@ =~= lit_web());
    }
    v
}

/// The bytes of `twitter`.
pub open spec fn lit_twitter() -> Seq<u8> {
    seq![116u8, 119, 105, 116, 116, 101, 114]
}

/// An owned copy of the bytes of `twitter`.
pub fn lit_twitter_vec() -> (r: Vec<u8>)
    ensures
        r@ == lit_twitter(),
{
    let mut v: Vec<u8> = Vec::new();
    v.push(116);
    v.push(119);
    v.push(105);
    v.push(116);
    v.push(116);
    v.push(101);
    v.push(114);
    proof {
        assert(v@ =~= lit_twitter());
    }
    v
}

/// The bytes of `riot`.
pub open spec fn lit_riot() -> Seq<u8> {
    seq![114u8, 105, 111, 116]
}

/// An owned copy of the bytes of `riot`.
pub fn lit_riot_vec() -> (r: Vec<u8>)
    ensures
        r@ == lit_riot(),
{
    let mut v: Vec<u8> = Vec::new();
    v.push(114);
    v.push(105);
    v.push(111);
    v.push(116);
    proof {
        assert(v@ =~= lit_riot());
    }
    v
}

/// The bytes of `ack`.
pub open spec fn lit_ack() -> Seq<u8> {
    seq![97u8, 99, 107]
}

/// An owned copy of the bytes of `ack`.
pub fn lit_ack_vec() -> (r: Vec<u8>)
    ensures
        r@ == lit_ack(),
{
    let mut v: Vec<u8> = Vec::new();
    v.push(97);
    v.push(99);
    v.push(107);
    proof {
        assert(v@ =~= lit_ack());
    }
    v
}

/// The bytes of `error`.
pub open spec fn lit_error() -> Seq<u8> {
    seq![101u8, 114, 114, 111, 114]
}

/// An owned copy of the bytes of `error`.
pub fn lit_error_vec() -> (r: Vec<u8>)
    ensures
        r@ == lit_error(),
{
    let mut v: Vec<u8> = Vec::new();
    v.push(101);
    v.push(114);
    v.push(114);
    v.push(111);
    v.push(114);
    proof {
        assert(v@ =~= lit_error());
    }
    v
}

/// The bytes of `newJudgementRequest`.
pub open spec fn lit_new_judgement_request() -> Seq<u8> {
    seq![110u8, 101, 119, 74, 117, 100, 103, 101, 109, 101, 110, 116, 82, 101, 113, 117, 101, 115, 116]
}

/// An owned copy of the bytes of `newJudgementRequest`.
pub fn lit_new_judgement_request_vec() -> (r: Vec<u8>)
    ensures
        r@ == lit_new_judgement_request(),
{
    let mut v: Vec<u8> = Vec::new();
    v.push(110);
    v.push(101);
    v.push(119);
    v.push(74);
    v.push(117);
    v.push(100);
    v.push(103);
    v.push(101);
    v.push(109);
    v.push(101);
    v.push(110);
    v.push(116);
    v.push(82);
    v.push(101);
    v.push(113);
    v.push(117);
    v.push(101);
    v.push(115);
    v.push(116);
    proof {
        assert(v@ =~= lit_new_judgement_request());
    }
    v
}

/// The bytes of `judgementResult`.
pub open spec fn lit_judgement_result() -> Seq<u8> {
    seq![106u8, 117, 100, 103, 101, 109, 101, 110, 116, 82, 101, 115, 117, 108, 116]
}

/// An owned copy of the bytes of `judgementResult`.
pub fn lit_judgement_result_vec() -> (r: Vec<u8>)
    ensures
        r@ == lit_judgement_result(),
{
    let mut v: Vec<u8> = Vec::new();
    v.push(106);
    v.push(117);
    v.push(100);
    v.push(103);
    v.push(101);
    v.push(109);
    v.push(101);
    v.push(110);
    v.push(116);
    v.push(82);
    v.push(101);
    v.push(115);
    v.push(117);
    v.push(108);
    v.push(116);
    proof {
        assert(v@ =~= lit_judgement_result());
    }
    v
}

/// The bytes of `Reasonable`.
pub open spec fn lit_reasonable() -> Seq<u8> {
    seq![82u8, 101, 97, 115, 111, 110, 97, 98, 108, 101]
}

/// An owned copy of the bytes of `Reasonable`.
pub fn lit_reasonable_vec() -> (r: Vec<u8>)
    ensures
        r@ == lit_reasonable(),
{
    let mut v: Vec<u8> = Vec::new();
    v.push(82);
    v.push(101);
    v.push(97);
    v.push(115);
    v.push(111);
    v.push(110);
    v.push(97);
    v.push(98);
    v.push(108);
    v.push(101);
    proof {
        assert(v@ =~= lit_reasonable());
    }
    v
}

/// The bytes of `{\"event\":\"ack\",\"data\":{\"result\":\"`.
pub open spec fn lit_ack_prefix() -> Seq<u8> {
    seq![123u8, 34, 101, 118, 101, 110, 116, 34, 58, 34, 97, 99, 107, 34, 44, 34, 100, 97, 116, 97, 34, 58, 123, 34, 114, 101, 115, 117, 108, 116, 34, 58, 34]
}

/// An owned copy of the bytes of `{\"event\":\"ack\",\"data\":{\"result\":\"`.
pub fn lit_ack_prefix_vec() -> (r: Vec<u8>)
    ensures
        r@ == lit_ack_prefix(),
{
    let mut v: Vec<u8> = Vec::new();
    v.push(123);
    v.push(34);
    v.push(101);
    v.push(118);
    v.push(101);
    v.push(110);
    v.push(116);
    v.push(34);
    v.push(58);
    v.push(34);
    v.push(97);
    v.push(99);
    v.push(107);
    v.push(34);
    v.push(44);
    v.push(34);
    v.push(100);
    v.push(97);
    v.push(116);
    v.push(97);
    v.push(34);
    v.push(58);
    v.push(123);
    v.push(34);
    v.push(114);
    v.push(101);
    v.push(115);
    v.push(117);
    v.push(108);
    v.push(116);
    v.push(34);
    v.push(58);
    v.push(34);
    proof {
        assert(v@ =~= lit_ack_prefix());
    }
    v
}

/// The bytes of `\"}}`.
pub open spec fn lit_frame_suffix() -> Seq<u8> {
    seq![34u8, 125, 125]
}

/// An owned copy of the bytes of `\"}}`.
pub fn lit_frame_suffix_vec() -> (r: Vec<u8>)
    ensures
        r@ == lit_frame_suffix(),
{
    let mut v: Vec<u8> = Vec::new();
    v.push(34);
    v.push(125);
    v.push(125);
    proof {
        assert(v@ =~= lit_frame_suffix());
    }
    v
}

/// The bytes of `{\"event\":\"error\",\"data\":{\"error\":\"Message is invalid. Rejected\"}}`.
pub open spec fn lit_error_frame() -> Seq<u8> {
    seq![123u8, 34, 101, 118, 101, 110, 116, 34, 58, 34, 101, 114, 114, 111, 114, 34, 44, 34, 100, 97, 116, 97, 34, 58, 123, 34, 101, 114, 114, 111, 114, 34, 58, 34, 77, 101, 115, 115, 97, 103, 101, 32, 105, 115, 32, 105, 110, 118, 97, 108, 105, 100, 46, 32, 82, 101, 106, 101, 99, 116, 101, 100, 34, 125, 125]
}

/// An owned copy of the bytes of `{\"event\":\"error\",\"data\":{\"error\":\"Message is invalid. Rejected\"}}`.
pub fn lit_error_frame_vec() -> (r: Vec<u8>)
    ensures
        r@ == lit_error_frame(),
{
    let mut v: Vec<u8> = Vec::new();
    v.push(123);
    v.push(34);
    v.push(101);
    v.push(118);
    v.push(101);
    v.push(110);
    v.push(116);
    v.push(34);
    v.push(58);
    v.push(34);
    v.push(101);
    v.push(114);
    v.push(114);
    v.push(111);
    v.push(114);
    v.push(34);
    v.push(44);
    v.push(34);
    v.push(100);
    v.push(97);
    v.push(116);
    v.push(97);
    v.push(34);
    v.push(58);
    v.push(123);
    v.push(34);
    v.push(101);
    v.push(114);
    v.push(114);
    v.push(111);
    v.push(114);
    v.push(34);
    v.push(58);
    v.push(34);
    v.push(77);
    v.push(101);
    v.push(115);
    v.push(115);
    v.push(97);
    v.push(103);
    v.push(101);
    v.push(32);
    v.push(105);
    v.push(115);
    v.push(32);
    v.push(105);
    v.push(110);
    v.push(118);
    v.push(97);
    v.push(108);
    v.push(105);
    v.push(100);
    v.push(46);
    v.push(32);
    v.push(82);
    v.push(101);
    v.push(106);
    v.push(101);
    v.push(99);
    v.push(116);
    v.push(101);
    v.push(100);
    v.push(34);
    v.push(125);
    v.push(125);
    proof {
        assert(v@ =~= lit_error_frame());
    }
    v
}

/// The bytes of `{\"event\":\"judgementResult\",\"data\":{\"address\":\"`.
pub open spec fn lit_jr_prefix() -> Seq<u8> {
    seq![123u8, 34, 101, 118, 101, 110, 116, 34, 58, 34, 106, 117, 100, 103, 101, 109, 101, 110, 116, 82, 101, 115, 117, 108, 116, 34, 44, 34, 100, 97, 116, 97, 34, 58, 123, 34, 97, 100, 100, 114, 101, 115, 115, 34, 58, 34]
}

/// An owned copy of the bytes of `{\"event\":\"judgementResult\",\"data\":{\"address\":\"`.
pub fn lit_jr_prefix_vec() -> (r: Vec<u8>)
    ensures
        r@ == lit_jr_prefix(),
{
    let mut v: Vec<u8> = Vec::new();
    v.push(123);
    v.push(34);
    v.push(101);
    v.push(118);
    v.push(101);
    v.push(110);
    v.push(116);
    v.push(34);
    v.push(58);
    v.push(34);
    v.push(106);
    v.push(117);
    v.push(100);
    v.push(103);
    v.push(101);
    v.push(109);
    v.push(101);
    v.push(110);
    v.push(116);
    v.push(82);
    v.push(101);
    v.push(115);
    v.push(117);
    v.push(108);
    v.push(116);
    v.push(34);
    v.push(44);
    v.push(34);
    v.push(100);
    v.push(97);
    v.push(116);
    v.push(97);
    v.push(34);
    v.push(58);
    v.push(123);
    v.push(34);
    v.push(97);
    v.push(100);
    v.push(100);
    v.push(114);
    v.push(101);
    v.push(115);
    v.push(115);
    v.push(34);
    v.push(58);
    v.push(34);
    proof {
        assert(v@ =~= lit_jr_prefix());
    }
    v
}

/// The bytes of `\",\"judgement\":\"`.
pub open spec fn lit_jr_mid() -> Seq<u8> {
    seq![34u8, 44, 34, 106, 117, 100, 103, 101, 109, 101, 110, 116, 34, 58, 34]
}

/// An owned copy of the bytes of `\",\"judgement\":\"`.
pub fn lit_jr_mid_vec() -> (r: Vec<u8>)
    ensures
        r@ == lit_jr_mid(),
{
    let mut v: Vec<u8> = Vec::new();
    v.push(34);
    v.push(44);
    v.push(34);
    v.push(106);
    v.push(117);
    v.push(100);
    v.push(103);
    v.push(101);
    v.push(109);
    v.push(101);
    v.push(110);
    v.push(116);
    v.push(34);
    v.push(58);
    v.push(34);
    proof {
        assert(v@ =~= lit_jr_mid());
    }
    v
}

/// The bytes of `Connection established`.
pub open spec fn lit_conn_established() -> Seq<u8> {
    seq![67u8, 111, 110, 110, 101, 99, 116, 105, 111, 110, 32, 101, 115, 116, 97, 98, 108, 105, 115, 104, 101, 100]
}

/// An owned copy of the bytes of `Connection established`.
pub fn lit_conn_established_vec() -> (r: Vec<u8>)
    ensures
        r@ == lit_conn_established(),
{
    let mut v: Vec<u8> = Vec::new();
    v.push(67);
    v.push(111);
    v.push(110);
    v.push(110);
    v.push(101);
    v.push(99);
    v.push(116);
    v.push(105);
    v.push(111);
    v.push(110);
    v.push(32);
    v.push(101);
    v.push(115);
    v.push(116);
    v.push(97);
    v.push(98);
    v.push(108);
    v.push(105);
    v.push(115);
    v.push(104);
    v.push(101);
    v.push(100);
    proof {
        assert(v@ =~= lit_conn_established());
    }
    v
}

/// The bytes of `Message acknowledged`.
pub open spec fn lit_msg_acknowledged() -> Seq<u8> {
    seq![77u8, 101, 115, 115, 97, 103, 101, 32, 97, 99, 107, 110, 111, 119, 108, 101, 100, 103, 101, 100]
}

/// An owned copy of the bytes of `Message acknowledged`.
pub fn lit_msg_acknowledged_vec() -> (r: Vec<u8>)
    ensures
        r@ == lit_msg_acknowledged(),
{
    let mut v: Vec<u8> = Vec::new();
    v.push(77);
    v.push(101);
    v.push(115);
    v.push(115);
    v.push(97);
    v.push(103);
    v.push(101);
    v.push(32);
    v.push(97);
    v.push(99);
    v.push(107);
    v.push(110);
    v.push(111);
    v.push(119);
    v.push(108);
    v.push(101);
    v.push(100);
    v.push(103);
    v.push(101);
    v.push(100);
    proof {
        assert(v@ =~= lit_msg_acknowledged());
    }
    v
}

} // verus!
