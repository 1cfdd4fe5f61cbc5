use controller_worker::common::{
    DBUS_CONTROLLER_PATH, DBUS_INTERFACE, DBUS_SERVICE_NAME, DBUS_WORKER_PATH, LOG_DIR,
    SOCKET_PATH,
};
use controller_worker::message::{
    decode, is_sentinel, payload, reply, round_message, sentinel, READ_BUFFER_SIZE, SENTINEL,
};
use controller_worker::text::{decimal_string, push_decimal, DIGITS};

#[test]
fn constants_have_their_values() {
    assert_eq!(SOCKET_PATH, "/tmp/controller_worker.sock");
    assert_eq!(LOG_DIR, "/tmp/myapp");
    assert_eq!(DBUS_SERVICE_NAME, "com.example.ControllerWorker");
    assert_eq!(DBUS_CONTROLLER_PATH, "/com/example/Controller");
    assert_eq!(DBUS_WORKER_PATH, "/com/example/Worker");
    assert_eq!(DBUS_INTERFACE, "com.example.ControllerWorker1");
    assert_eq!(SENTINEL, "exit");
    assert_eq!(READ_BUFFER_SIZE, 1024);
    assert_eq!(DIGITS, "0123456789");
}

#[test]
fn decimal_of_small_and_large_numbers() {
    assert_eq!(decimal_string(0), "0");
    assert_eq!(decimal_string(7), "7");
    assert_eq!(decimal_string(9), "9");
    assert_eq!(decimal_string(10), "10");
    assert_eq!(decimal_string(1234), "1234");
    assert_eq!(decimal_string(100_000), "100000");
    assert_eq!(decimal_string(u32::MAX), "4294967295");
}

#[test]
fn decimal_agrees_with_std_on_a_sweep() {
    let mut n: u32 = 0;
    while n < 5000 {
        assert_eq!(decimal_string(n), n.to_string());
        n += 1;
    }
    let mut m: u32 = u32::MAX;
    while m > u32::MAX - 50 {
        assert_eq!(decimal_string(m), m.to_string());
        m -= 1;
    }
}

#[test]
fn push_decimal_appends() {
    let mut s = String::from("pid=");
    push_decimal(&mut s, 4321);
    assert_eq!(s, "pid=4321");
    push_decimal(&mut s, 0);
    assert_eq!(s, "pid=43210");
}

#[test]
fn round_messages_are_numbered() {
    assert_eq!(round_message(1), "Message 1 from controller");
    assert_eq!(round_message(2), "Message 2 from controller");
    assert_eq!(round_message(5), "Message 5 from controller");
    assert_eq!(round_message(10), "Message 10 from controller");
    assert_eq!(round_message(255), "Message 255 from controller");
}

#[test]
fn reply_names_the_worker_and_echoes_the_message() {
    assert_eq!(
        reply(1234, "Message 1 from controller"),
        "Worker[1234] processed: Message 1 from controller"
    );
    assert_eq!(reply(0, ""), "Worker[0] processed: ");
    assert_eq!(reply(u32::MAX, "x"), "Worker[4294967295] processed: x");
}

#[test]
fn sentinel_is_the_four_bytes_of_exit() {
    assert_eq!(sentinel(), vec![0x65u8, 0x78, 0x69, 0x74]);
    assert_eq!(sentinel(), "exit".as_bytes().to_vec());
}

#[test]
fn only_the_exact_literal_is_the_sentinel() {
    assert!(is_sentinel("exit"));
    assert!(!is_sentinel("exit\n"));
    assert!(!is_sentinel(" exit"));
    assert!(!is_sentinel("EXIT"));
    assert!(!is_sentinel("exi"));
    assert!(!is_sentinel(""));
    assert!(!is_sentinel("Message 1 from controller"));
}

#[test]
fn no_round_message_is_the_sentinel() {
    let mut round: u8 = 0;
    loop {
        assert!(!is_sentinel(&round_message(round)));
        assert_ne!(payload(&round_message(round)), sentinel());
        if round == u8::MAX {
            break;
        }
        round += 1;
    }
}

#[test]
fn payload_is_the_utf8_encoding() {
    assert_eq!(payload("abc"), vec![0x61u8, 0x62, 0x63]);
    assert_eq!(payload(""), Vec::<u8>::new());
    assert_eq!(payload("\u{e9}"), vec![0xc3u8, 0xa9]);
    assert_eq!(payload("\u{20ac}"), vec![0xe2u8, 0x82, 0xac]);
}

#[test]
fn decode_keeps_well_formed_text() {
    assert_eq!(decode(&"hello".as_bytes().to_vec()), "hello");
    assert_eq!(decode(&vec![0xc3u8, 0xa9]), "\u{e9}");
    assert_eq!(decode(&Vec::new()), "");
    assert_eq!(decode(&sentinel()), "exit");
}

#[test]
fn decode_replaces_malformed_bytes() {
    assert_eq!(decode(&vec![0x66u8, 0xff, 0x6f]), "f\u{fffd}o");
    assert_eq!(decode(&vec![0xffu8]), "\u{fffd}");
    assert_eq!(decode(&vec![0xc3u8]), "\u{fffd}");
    assert!(decode(&vec![0x65u8, 0x78, 0x69, 0x74, 0x80]).contains('\u{fffd}'));
}

#[test]
fn decoded_text_is_the_sentinel_only_for_the_sentinel_bytes() {
    assert!(is_sentinel(&decode(&sentinel())));
    assert!(!is_sentinel(&decode(&vec![0x65u8, 0x78, 0x69, 0x74, 0x80])));
    assert!(!is_sentinel(&decode(&vec![0x65u8, 0x78, 0x69])));
    assert!(!is_sentinel(&decode(&vec![0xffu8, 0x65, 0x78, 0x69, 0x74])));
}

#[test]
fn decode_then_payload_gives_well_formed_bytes_back() {
    let bytes = "Message 3 from controller".as_bytes().to_vec();
    assert_eq!(payload(&decode(&bytes)), bytes);
}

#[test]
fn decode_accepts_the_largest_scalar_and_rejects_what_lies_beyond() {
    assert_eq!(decode(&vec![0xf4u8, 0x8f, 0xbf, 0xbf]), "\u{10ffff}");
    assert!(decode(&vec![0xf4u8, 0x90, 0x80, 0x80]).contains('\u{fffd}'));
    assert!(decode(&vec![0xedu8, 0xa0, 0x80]).contains('\u{fffd}'));
    assert!(decode(&vec![0xc0u8, 0x80]).contains('\u{fffd}'));
    assert!(decode(&vec![0xe0u8, 0x80, 0x80]).contains('\u{fffd}'));
    assert_eq!(decode(&vec![0xedu8, 0x9f, 0xbf]), "\u{d7ff}");
    assert_eq!(decode(&vec![0xeeu8, 0x80, 0x80]), "\u{e000}");
}
