use discord_interactions::command::{DiscordChoice, DiscordCommand, DiscordOption};
use discord_interactions::gateway::{callback_url, registration_url, reply_payload};
use discord_interactions::parse::parse;

#[test]
fn parse_reads_every_field() {
    let body = b"{\"id\":\"12\",\"application_id\":\"34\",\"type\":2,\"guild_id\":\"g1\",\"channel_id\":null,\"token\":\"tk\",\"version\":255,\"message\":\"hi\"}";
    let it = parse(body).unwrap();
    assert_eq!(it.id, b"12".to_vec());
    assert_eq!(it.application_id, b"34".to_vec());
    assert_eq!(it.command_type, 2);
    assert_eq!(it.guild_id, Some(b"g1".to_vec()));
    assert_eq!(it.channel_id, None);
    assert_eq!(it.token, b"tk".to_vec());
    assert_eq!(it.version, 255);
    assert_eq!(it.message, Some(b"hi".to_vec()));
}

#[test]
fn parse_accepts_whitespace_and_any_field_order() {
    let body = b" { \"version\" : 1 , \"token\" : \"t\" ,\n\t\"type\" : 3 , \"id\" : \"a\" , \"application_id\" : \"b\" } ";
    let it = parse(body).unwrap();
    assert_eq!(it.id, b"a".to_vec());
    assert_eq!(it.command_type, 3);
    assert_eq!(it.guild_id, None);
    assert_eq!(it.message, None);
}

#[test]
fn parse_rejects_malformed_shapes() {
    // a required field missing
    assert!(parse(b"{\"id\":\"1\",\"application_id\":\"2\",\"type\":1,\"version\":1}").is_err());
    // an unknown member
    assert!(parse(b"{\"id\":\"1\",\"application_id\":\"2\",\"type\":1,\"token\":\"t\",\"version\":1,\"extra\":1}").is_err());
    // a member repeated
    assert!(parse(b"{\"id\":\"1\",\"id\":\"1\",\"application_id\":\"2\",\"type\":1,\"token\":\"t\",\"version\":1}").is_err());
    // a type tag that does not fit in a byte
    assert!(parse(b"{\"id\":\"1\",\"application_id\":\"2\",\"type\":256,\"token\":\"t\",\"version\":1}").is_err());
    // a leading zero
    assert!(parse(b"{\"id\":\"1\",\"application_id\":\"2\",\"type\":01,\"token\":\"t\",\"version\":1}").is_err());
    // a required field holding null
    assert!(parse(b"{\"id\":null,\"application_id\":\"2\",\"type\":1,\"token\":\"t\",\"version\":1}").is_err());
    // trailing content after the object
    assert!(parse(b"{\"id\":\"1\",\"application_id\":\"2\",\"type\":1,\"token\":\"t\",\"version\":1} x").is_err());
    // a trailing comma
    assert!(parse(b"{\"id\":\"1\",\"application_id\":\"2\",\"type\":1,\"token\":\"t\",\"version\":1,}").is_err());
    // not an object at all
    assert!(parse(b"[]").is_err());
    assert!(parse(b"").is_err());
    // an escape sequence: outside this parser's grammar
    assert!(parse(b"{\"id\":\"a\\n\",\"application_id\":\"2\",\"type\":1,\"token\":\"t\",\"version\":1}").is_err());
}

#[test]
fn parse_keeps_text_bytes_verbatim() {
    let body = "{\"id\":\"héllo\",\"application_id\":\"2\",\"type\":1,\"token\":\"\",\"version\":0}"
        .as_bytes();
    let it = parse(body).unwrap();
    assert_eq!(it.id, "héllo".as_bytes().to_vec());
    assert_eq!(it.token, Vec::<u8>::new());
    assert_eq!(it.version, 0);
}

#[test]
fn option_type_tag_serializes_in_decimal() {
    let mut cmd = DiscordCommand::new("c", "d");
    cmd.options = Some(DiscordOption::new("o", "p", 255, false));
    assert_eq!(
        String::from_utf8(cmd.to_json()).unwrap(),
        "{\"name\":\"c\",\"description\":\"d\",\"options\":{\"name\":\"o\",\"description\":\"p\",\"type\":255,\"required\":false,\"choices\":null}}"
    );
}

#[test]
fn command_serializes_exactly() {
    let cmd = DiscordCommand::new("hello", "hello world");
    assert_eq!(
        cmd.to_json(),
        b"{\"name\":\"hello\",\"description\":\"hello world\",\"options\":null}".to_vec()
    );
}

#[test]
fn command_with_option_and_choices_serializes_exactly() {
    let mut opt = DiscordOption::new("color", "pick one", 3, true);
    opt.add_choice(DiscordChoice::new("Red", "red"));
    opt.add_choice(DiscordChoice::new("Blue", "blue"));
    let mut cmd = DiscordCommand::new("paint", "paint it");
    cmd.options = Some(opt);
    assert_eq!(
        String::from_utf8(cmd.to_json()).unwrap(),
        "{\"name\":\"paint\",\"description\":\"paint it\",\"options\":{\"name\":\"color\",\"description\":\"pick one\",\"type\":3,\"required\":true,\"choices\":[{\"name\":\"Red\",\"value\":\"red\"},{\"name\":\"Blue\",\"value\":\"blue\"}]}}"
    );
}

#[test]
fn serializer_escapes_strings() {
    let cmd = DiscordCommand::new("a\"b\\c", "tab\there");
    assert_eq!(
        String::from_utf8(cmd.to_json()).unwrap(),
        "{\"name\":\"a\\\"b\\\\c\",\"description\":\"tab\\u0009here\",\"options\":null}"
    );
}

#[test]
fn gateway_addresses_and_payloads() {
    assert_eq!(
        callback_url(b"111", b"tok"),
        b"https://discord.com/api/v10/interactions/111/tok/callback".to_vec()
    );
    assert_eq!(
        registration_url(b"222"),
        b"https://discord.com/api/v10/applications/222/commands".to_vec()
    );
    assert_eq!(
        reply_payload(b"Hello from Spin!"),
        b"{\"type\":4,\"data\":{\"content\":\"Hello from Spin!\"}}".to_vec()
    );
    assert_eq!(
        String::from_utf8(reply_payload(b"say \"hi\"")).unwrap(),
        "{\"type\":4,\"data\":{\"content\":\"say \\\"hi\\\"\"}}"
    );
}
