use esolang_ide::decode_output;

#[test]
fn utf8_output_is_kept() {
    assert_eq!(decode_output(b"-5\n".to_vec()), "-5\n");
    assert_eq!(decode_output("你好".as_bytes().to_vec()), "你好");
    assert_eq!(decode_output(Vec::new()), "");
}

#[test]
fn other_output_is_read_as_gbk() {
    // "你好" in GBK.
    assert_eq!(decode_output(vec![0xc4, 0xe3, 0xba, 0xc3]), "你好");
}
