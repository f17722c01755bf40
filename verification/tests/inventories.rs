use base64::Engine;
use rs_pixel::response::skyblock::skyblock_auctions_ended_response::SkyblockAuctionEnded;
use rs_pixel::response::skyblock::skyblock_ended_auctions_response::SkyblockEndedAuction;
use rs_pixel::util::generic_json::Json;
use rs_pixel::util::utils::{parse_gzip_nbt, parse_nbt};

fn doc(text: &str) -> Json {
    Json::parse(text.as_bytes()).expect("valid JSON")
}

fn item(id: i16, count: i8, name: &str) -> nbt::Value {
    let mut display = nbt::Map::new();
    display.insert("Name".to_string(), nbt::Value::String(name.to_string()));
    let mut tag = nbt::Map::new();
    tag.insert("display".to_string(), nbt::Value::Compound(display));
    let mut item = nbt::Map::new();
    item.insert("id".to_string(), nbt::Value::Short(id));
    item.insert("Count".to_string(), nbt::Value::Byte(count));
    item.insert("tag".to_string(), nbt::Value::Compound(tag));
    nbt::Value::Compound(item)
}

fn gzip(blob: &nbt::Blob) -> Vec<u8> {
    let mut bytes = Vec::new();
    blob.to_gzip_writer(&mut bytes).expect("writes to memory");
    bytes
}

fn base64(bytes: &[u8]) -> String {
    base64::engine::general_purpose::STANDARD.encode(bytes)
}

fn inventory() -> nbt::Blob {
    let mut blob = nbt::Blob::new();
    blob.insert("i", nbt::Value::List(vec![item(276, 1, "Sword"), item(5, 64, "Planks")]))
        .expect("a list of one kind");
    blob
}

const INVENTORY_JSON: &str = "[{\"Count\": 1, \"id\": 276, \"tag\": {\"display\": {\"Name\": \
                              \"Sword\"}}}, {\"Count\": 64, \"id\": 5, \"tag\": {\"display\": \
                              {\"Name\": \"Planks\"}}}]";

#[test]
fn inventory_is_decoded_from_base64_gzip_nbt() {
    let data = base64(&gzip(&inventory()));
    assert_eq!(parse_nbt(&data), Some(doc(INVENTORY_JSON)));
}

#[test]
fn inventory_is_decoded_from_gzip_nbt() {
    assert_eq!(parse_gzip_nbt(&gzip(&inventory())), Some(doc(INVENTORY_JSON)));
}

#[test]
fn each_kind_of_tag_becomes_json() {
    let mut blob = nbt::Blob::new();
    let mut all = nbt::Map::new();
    all.insert("byte".to_string(), nbt::Value::Byte(-1));
    all.insert("short".to_string(), nbt::Value::Short(300));
    all.insert("int".to_string(), nbt::Value::Int(-70000));
    all.insert("long".to_string(), nbt::Value::Long(5_000_000_000));
    all.insert("double".to_string(), nbt::Value::Double(0.5));
    all.insert("string".to_string(), nbt::Value::String("s".to_string()));
    all.insert("bytes".to_string(), nbt::Value::ByteArray(vec![1, 2]));
    all.insert("ints".to_string(), nbt::Value::IntArray(vec![3]));
    all.insert("longs".to_string(), nbt::Value::LongArray(vec![]));
    all.insert("list".to_string(), nbt::Value::List(vec![]));
    blob.insert("i", nbt::Value::Compound(all)).expect("a compound");
    let expected = Json::Object(vec![
        ("byte".to_string(), Json::Int(-1)),
        ("bytes".to_string(), Json::Array(vec![Json::Int(1), Json::Int(2)])),
        ("double".to_string(), Json::Real(0.5f64.to_bits(), 0)),
        ("int".to_string(), Json::Int(-70000)),
        ("ints".to_string(), Json::Array(vec![Json::Int(3)])),
        ("list".to_string(), Json::Array(vec![])),
        ("long".to_string(), Json::Int(5_000_000_000)),
        ("longs".to_string(), Json::Array(vec![])),
        ("short".to_string(), Json::Int(300)),
        ("string".to_string(), Json::Str("s".to_string())),
    ]);
    assert_eq!(parse_nbt(&base64(&gzip(&blob))), Some(expected));
}

#[test]
fn missing_tag_gives_nothing() {
    let mut blob = nbt::Blob::new();
    blob.insert("items", nbt::Value::List(vec![item(1, 1, "Stone")])).expect("a list");
    assert_eq!(parse_nbt(&base64(&gzip(&blob))), None);
    assert_eq!(parse_nbt(&base64(&gzip(&nbt::Blob::new()))), None);
}

#[test]
fn bad_base64_gives_nothing() {
    assert_eq!(parse_nbt("not base64!"), None);
    assert_eq!(parse_nbt("AQID="), None);
    assert_eq!(parse_nbt("A"), None);
}

#[test]
fn bad_gzip_gives_nothing() {
    assert_eq!(parse_nbt(""), None);
    assert_eq!(parse_nbt("AQID"), None);
    assert_eq!(parse_gzip_nbt(&vec![]), None);
    assert_eq!(parse_gzip_nbt(&vec![0x1f, 0x8b, 0x08]), None);
    let mut plain = Vec::new();
    inventory().to_writer(&mut plain).expect("writes to memory");
    assert_eq!(parse_gzip_nbt(&plain), None);
}

#[test]
fn malformed_nbt_gives_nothing() {
    let mut truncated = Vec::new();
    inventory().to_writer(&mut truncated).expect("writes to memory");
    truncated.truncate(truncated.len() / 2);
    assert_eq!(parse_gzip_nbt(&stored_gzip(&truncated)), None);
    let not_a_compound = stored_gzip(&[0x08, 0x00, 0x00, 0x00, 0x01, 0x61]);
    assert_eq!(parse_gzip_nbt(&not_a_compound), None);
}

/// Gzip with one stored block, written by hand: header, block, CRC-32 and
/// length.
fn stored_gzip(data: &[u8]) -> Vec<u8> {
    assert!(data.len() < 65_536);
    let mut out = vec![0x1f, 0x8b, 0x08, 0x00, 0, 0, 0, 0, 0x00, 0xff];
    let len = data.len() as u16;
    out.push(0x01);
    out.extend_from_slice(&len.to_le_bytes());
    out.extend_from_slice(&(!len).to_le_bytes());
    out.extend_from_slice(data);
    let mut crc: u32 = 0xffff_ffff;
    for byte in data {
        crc ^= *byte as u32;
        for _ in 0..8 {
            crc = if crc & 1 == 1 { (crc >> 1) ^ 0xedb8_8320 } else { crc >> 1 };
        }
    }
    out.extend_from_slice(&(!crc).to_le_bytes());
    out.extend_from_slice(&(data.len() as u32).to_le_bytes());
    out
}

#[test]
fn hand_written_gzip_is_read() {
    let mut plain = Vec::new();
    inventory().to_writer(&mut plain).expect("writes to memory");
    assert_eq!(parse_gzip_nbt(&stored_gzip(&plain)), Some(doc(INVENTORY_JSON)));
}

#[test]
fn ended_auctions_decode_their_item() {
    let data = base64(&gzip(&inventory()));
    let ended = SkyblockAuctionEnded {
        auction_id: "a".to_string(),
        seller: "s".to_string(),
        seller_profile: "p".to_string(),
        buyer: "b".to_string(),
        timestamp: 1,
        price: 2,
        bin: true,
        item_bytes: data.clone(),
    };
    assert_eq!(ended.get_nbt(), Some(doc(INVENTORY_JSON)));
    let ended = SkyblockEndedAuction {
        auction_id: "a".to_string(),
        seller: "s".to_string(),
        seller_profile: "p".to_string(),
        buyer: "b".to_string(),
        timestamp: 1,
        price: 2,
        bin: false,
        item_bytes: "????".to_string(),
    };
    assert_eq!(ended.get_nbt(), None);
}
