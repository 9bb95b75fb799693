use lib::utils::stack_string::StackString;

#[test]
fn test_append() {
    let mut str = StackString::<10>::default();
    str.append(b"hello");
    assert_eq!(str.as_str(), "hello");
}

#[test]
fn test_append_u8() {
    let mut str = StackString::<10>::default();
    str.append(&[b'h']);
    assert_eq!(str.as_str(), "h");
}

#[test]
fn test_from() {
    let str = "hello world";

    let _: StackString<11> = StackString::from(str);
    let _: StackString<12> = StackString::from(str);
    let _: StackString<20> = StackString::from(str);
}

#[test]
#[should_panic]
fn test_from_panic() {
    let str = "hello world";

    let _: StackString<10> = StackString::from(str);
}

#[test]
fn test_as_str() {
    let data = b"hello fucker";
    let ss = StackString { data: data.clone(), size: data.len() };

    assert_eq!(ss.as_str(), "hello fucker");
}

#[test]
fn test_write_str() {
    let bstr = b"hello";
    let mut data = [0; 20];
    data[0..bstr.len()].copy_from_slice(bstr);
    let mut ss: StackString<20> = StackString { data, size: bstr.len() };

    ss.write_str(" fucker").unwrap();
    assert_eq!(&ss.data[0..ss.size], b"hello fucker")
}

#[test]
fn test_write_str_error() {
    let bstr = b"hello";
    let mut data = [0; 20];
    data[0..bstr.len()].copy_from_slice(bstr);
    let mut ss: StackString<20> = StackString { data, size: bstr.len() };

    let res: Result<(), core::fmt::Error> = ss.write_str(" fucker djakdjaslkdjskl");
    assert_eq!(res, Result::Err(core::fmt::Error));
}

#[test]
fn write_str_fills_to_the_last_byte_and_failure_changes_nothing() {
    let mut ss = StackString::<5>::default();
    assert_eq!(ss.write_str("abc"), Ok(()));
    assert_eq!(ss.write_str("xyz"), Err(core::fmt::Error));
    assert_eq!(ss.as_str(), "abc");
    assert_eq!(ss.write_str("de"), Ok(()));
    assert_eq!(ss.as_str(), "abcde");
    assert_eq!(ss.size, 5);
}
