use eemod::proto::{push_varint, GenIdSignedPack, Msg, MsgId};

fn reference_field(tag: u32, v: &[u8], buf: &mut Vec<u8>) {
    if !v.is_empty() {
        prost::encoding::bytes::encode(tag, &v.to_vec(), buf);
    }
}

#[test]
fn varint_of_small_and_large_numbers() {
    let mut buf = Vec::new();
    push_varint(&mut buf, 1);
    assert_eq!(buf, vec![1u8]);
    let mut buf = Vec::new();
    push_varint(&mut buf, 300);
    assert_eq!(buf, vec![0xacu8, 0x02]);
    let mut buf = vec![9u8];
    push_varint(&mut buf, 127);
    assert_eq!(buf, vec![9u8, 127]);
    let mut buf = Vec::new();
    push_varint(&mut buf, u64::MAX);
    let mut reference = Vec::new();
    prost::encoding::encode_varint(u64::MAX, &mut reference);
    assert_eq!(buf, reference);
}

#[test]
fn signed_pack_has_the_protobuf_wire_form() {
    let pack = GenIdSignedPack {
        src_ct: vec![1, 2, 3],
        ct_hash: vec![7u8; 32],
        ct_hash_ct: vec![9u8; 200],
    };
    let mut reference = Vec::new();
    reference_field(1, &pack.src_ct, &mut reference);
    reference_field(2, &pack.ct_hash, &mut reference);
    reference_field(3, &pack.ct_hash_ct, &mut reference);
    let bytes = pack.encode_to_vec();
    assert_eq!(bytes, reference);
    assert_eq!(&bytes[..5], &[0x0a, 3, 1, 2, 3]);
    assert_eq!(&bytes[5..7], &[0x12, 32]);
    assert_eq!(&bytes[39..42], &[0x1a, 0xc8, 0x01]);
}

#[test]
fn empty_fields_are_left_out() {
    let pack = GenIdSignedPack { src_ct: vec![], ct_hash: vec![4], ct_hash_ct: vec![] };
    assert_eq!(pack.encode_to_vec(), vec![0x12u8, 1, 4]);
    let msg = Msg { id_bs: vec![], body: vec![] };
    assert_eq!(msg.encode_to_vec(), Vec::<u8>::new());
}

#[test]
fn msg_id_and_msg_wire_forms() {
    let id = MsgId {
        msg_key: vec![1u8; 28],
        ct_hash: vec![2u8; 32],
        src_ct: vec![3u8; 32],
        sign: vec![4u8; 64],
    };
    let mut reference = Vec::new();
    reference_field(1, &id.msg_key, &mut reference);
    reference_field(2, &id.ct_hash, &mut reference);
    reference_field(3, &id.src_ct, &mut reference);
    reference_field(4, &id.sign, &mut reference);
    assert_eq!(id.encode_to_vec(), reference);

    let msg = Msg { id_bs: vec![5, 6], body: b"hi".to_vec() };
    assert_eq!(msg.encode_to_vec(), vec![0x0au8, 2, 5, 6, 0x12, 2, b'h', b'i']);
}
