use data_package::data::levels_or_empty;
use data_package::data_ingestor::packet_message_string;
use data_package::{
    Buffer, ChannelMessenger, DataEnum, DataIngestor, DataPacket, ExchangeEnum, IngestAction,
    MarketIncremental, RefreshBidAsk, Route, SymbolEnum, UtcTime,
};
use std::sync::mpsc;

fn levels(v: &[(f64, f64)]) -> Option<String> {
    serde_json::to_string(&v.to_vec()).ok()
}

fn market_packet(
    asks: &[(f64, f64)],
    bids: &[(f64, f64)],
    exchange: ExchangeEnum,
    timestamp: i64,
) -> DataPacket {
    DataPacket {
        data: DataEnum::MBP(MarketIncremental { asks: levels(asks), bids: levels(bids) }),
        exchange,
        symbol_pair: SymbolEnum::BTCUSD,
        channel: "Market".to_string(),
        timestamp,
    }
}

fn sample_asks() -> Vec<(f64, f64)> {
    vec![(100.0, 1.0), (101.0, 2.0), (102.0, 3.0)]
}

fn sample_bids() -> Vec<(f64, f64)> {
    vec![(98.0, 5.0), (97.0, 4.0), (96.0, 2.0)]
}

fn send_and_ingest(packet: DataPacket) -> DataIngestor {
    let (tx, rx) = mpsc::channel();
    let channel_messenger = ChannelMessenger::new(tx);
    let mut data_ingestor = DataIngestor::new(100);
    assert!(channel_messenger.send_data(packet));
    let received = rx.recv().unwrap();
    let action = data_ingestor.filter_buffer(&received, 1_700_160_577_199_752_950);
    assert_eq!(action, IngestAction::Buffered(Route::Binance));
    data_ingestor
}

#[test]
fn test_normal_data() {
    let packet = market_packet(&sample_asks(), &sample_bids(), ExchangeEnum::Binance, 170016057719975295);
    let data_ingestor = send_and_ingest(packet);
    assert!(data_ingestor.binance.storage.len() > 0);
}

#[test]
fn test_empty_data() {
    let packet = market_packet(&[], &[], ExchangeEnum::Binance, 170016057719975295);
    let data_ingestor = send_and_ingest(packet);
    assert!(data_ingestor.binance.storage.len() > 0);
    assert_eq!(
        data_ingestor.binance.storage[0],
        "Market-BTCUSD asks=\"[]\",bids=\"[]\" 1700160577199752950"
    );
}

#[test]
fn test_min_timestamp() {
    let packet = market_packet(&sample_asks(), &sample_bids(), ExchangeEnum::Binance, i64::MIN);
    let data_ingestor = send_and_ingest(packet);
    assert!(data_ingestor.binance.storage.len() > 0);
}

#[test]
fn test_max_timestamp() {
    let packet = market_packet(&sample_asks(), &sample_bids(), ExchangeEnum::Binance, i64::MAX);
    let data_ingestor = send_and_ingest(packet);
    assert!(data_ingestor.binance.storage.len() > 0);
}

#[test]
fn labels_of_exchanges_and_symbols() {
    assert_eq!(ExchangeEnum::Huobi.as_str(), "Houbi");
    assert_eq!(ExchangeEnum::Binance.as_str(), "Binance");
    assert_eq!(SymbolEnum::BTCUSD.as_str(), "BTCUSD");
    assert_eq!(SymbolEnum::ETHUSD.as_str(), "ETHUSD");
}

#[test]
fn message_has_the_line_protocol_shape() {
    let packet = market_packet(&sample_asks(), &sample_bids(), ExchangeEnum::Binance, 0);
    let m = packet_message_string(&packet, 170016057719975295);
    assert_eq!(
        m,
        "Market-BTCUSD asks=\"[[100.0,1.0],[101.0,2.0],[102.0,3.0]]\",bids=\"[[98.0,5.0],[97.0,4.0],[96.0,2.0]]\" 170016057719975295"
    );
}

#[test]
fn message_of_refresh_packet_with_unserializable_side() {
    let packet = DataPacket {
        data: DataEnum::RBA(RefreshBidAsk { asks: None, bids: Some("[[1.5,2.0]]".to_string()) }),
        exchange: ExchangeEnum::Binance,
        symbol_pair: SymbolEnum::ETHUSD,
        channel: "Trade".to_string(),
        timestamp: 0,
    };
    let m = packet_message_string(&packet, u128::MAX);
    assert_eq!(
        m,
        "Trade-ETHUSD asks=\"[]\",bids=\"[[1.5,2.0]]\" 340282366920938463463374607431768211455"
    );
}

#[test]
fn message_quotes_and_escapes_like_debug() {
    let packet = DataPacket {
        data: DataEnum::MBP(MarketIncremental { asks: Some("a\"b".to_string()), bids: Some(String::new()) }),
        exchange: ExchangeEnum::Binance,
        symbol_pair: SymbolEnum::BTCUSD,
        channel: String::new(),
        timestamp: 0,
    };
    assert_eq!(packet_message_string(&packet, 0), "-BTCUSD asks=\"a\\\"b\",bids=\"\" 0");
}

#[test]
fn missing_levels_become_empty_array() {
    assert_eq!(levels_or_empty(&None), "[]");
    assert_eq!(levels_or_empty(&Some("[[1.0,2.0]]".to_string())), "[[1.0,2.0]]");
}

#[test]
fn huobi_packets_go_to_the_huobi_buffer() {
    let mut d = DataIngestor::new(1);
    let packet = market_packet(&sample_asks(), &sample_bids(), ExchangeEnum::Huobi, 0);
    assert_eq!(d.filter_buffer(&packet, 5), IngestAction::Buffered(Route::Huobi));
    assert_eq!(d.huobi.storage.len(), 1);
    assert!(d.binance.storage.is_empty());
    assert_eq!(d.filter_buffer(&packet, 6), IngestAction::Flush(Route::Huobi));
    assert_eq!(d.huobi.storage.len(), 2);
}

#[test]
fn successful_write_empties_buffer_and_queries_binance() {
    let mut d = DataIngestor::new(0);
    let packet = market_packet(&[], &[], ExchangeEnum::Huobi, 0);
    assert_eq!(d.filter_buffer(&packet, 1), IngestAction::Flush(Route::Huobi));
    d.filter_buffer(&market_packet(&[], &[], ExchangeEnum::Binance, 0), 2);
    let now = UtcTime { secs: 1_700_000_000, nanos: 0 };
    let (end, q) = d.after_write(Route::Huobi, true, "tok", now).unwrap();
    assert_eq!(end.unwrap(), "2023-11-14T22:13:20.000000Z");
    assert_eq!(
        q.body,
        "from(bucket: \"Binance\")\n |> range(start: 2023-01-01T00:00:00Z, stop: 2023-11-14T22:13:20.000000Z)"
    );
    assert_eq!(q.headers[0].1, "Token tok");
    assert!(d.huobi.storage.is_empty());
    assert_eq!(d.binance.storage.len(), 1);
}

#[test]
fn failed_write_keeps_messages() {
    let mut d = DataIngestor::new(0);
    let packet = market_packet(&[], &[], ExchangeEnum::Binance, 0);
    assert_eq!(d.filter_buffer(&packet, 1), IngestAction::Flush(Route::Binance));
    let now = UtcTime { secs: 0, nanos: 0 };
    assert!(d.after_write(Route::Binance, false, "tok", now).is_none());
    assert_eq!(d.binance.storage.len(), 1);
}

#[test]
fn new_ingestor_has_named_empty_buckets() {
    let d = DataIngestor::new(7);
    assert_eq!(d.binance.bucket, "Binance");
    assert_eq!(d.huobi.bucket, "Huobi");
    assert!(d.binance.storage.is_empty() && d.huobi.storage.is_empty());
    assert_eq!(d.buffer_capacity, 7);
    let b = Buffer::new("x".to_string());
    assert!(b.storage.is_empty());
    assert_eq!(b.bucket, "x");
}

#[test]
fn flush_is_requested_once_capacity_is_passed() {
    let mut d = DataIngestor::new(2);
    let packet = market_packet(&[(1.0, 1.0)], &[], ExchangeEnum::Binance, 0);
    assert_eq!(d.filter_buffer(&packet, 1), IngestAction::Buffered(Route::Binance));
    assert_eq!(d.filter_buffer(&packet, 2), IngestAction::Buffered(Route::Binance));
    assert_eq!(d.filter_buffer(&packet, 3), IngestAction::Flush(Route::Binance));
    assert_eq!(d.binance.storage.len(), 3);
    assert!(d.binance.storage[2].ends_with(" 3"));
    d.flush_succeeded(Route::Binance);
    assert!(d.binance.storage.is_empty());
    assert_eq!(d.binance.bucket, "Binance");
    assert_eq!(d.filter_buffer(&packet, 4), IngestAction::Buffered(Route::Binance));
}

#[test]
fn zero_capacity_flushes_every_message() {
    let mut d = DataIngestor::new(0);
    let packet = market_packet(&[], &[], ExchangeEnum::Binance, 0);
    assert_eq!(d.filter_buffer(&packet, 1), IngestAction::Flush(Route::Binance));
}

#[test]
fn push_request_joins_lines() {
    let mut b = Buffer::new("Binance".to_string());
    b.storage.push("one".to_string());
    b.storage.push("two".to_string());
    b.storage.push("three".to_string());
    assert_eq!(b.payload(), "one\ntwo\nthree");
    let r = b.push_request("tok");
    assert_eq!(
        r.url,
        "https://us-east-1-1.aws.cloud2.influxdata.com/api/v2/write?org=devteam&bucket=Binance"
    );
    assert_eq!(r.body, "one\ntwo\nthree");
    assert_eq!(
        r.headers,
        vec![
            ("Authorization".to_string(), "Token tok".to_string()),
            ("Content-Type".to_string(), "text/plain; charset=utf-8".to_string()),
            ("Accept".to_string(), "application/json".to_string()),
        ]
    );
    assert_eq!(Buffer::new("e".to_string()).payload(), "");
}

#[test]
fn query_request_for_binance_range() {
    let r = Buffer::query_request("tok", "2023-01-01T00:00:00Z", "2023-01-02T00:00:00Z", "Binance");
    assert_eq!(r.url, "https://us-east-1-1.aws.cloud2.influxdata.com/api/v2/query?org=devteam");
    assert_eq!(
        r.body,
        "from(bucket: \"Binance\")\n |> range(start: 2023-01-01T00:00:00Z, stop: 2023-01-02T00:00:00Z)"
    );
    assert_eq!(
        r.headers,
        vec![
            ("Authorization".to_string(), "Token tok".to_string()),
            ("Accept".to_string(), "application/csv".to_string()),
            ("Content-type".to_string(), "application/vnd.flux".to_string()),
        ]
    );
}

#[test]
fn query_request_for_bad_bucket_range() {
    let r = Buffer::query_request("", "2023-01-04T00:00:00Z", "2023-01-02T00:00:00Z", "Bad_bucket");
    assert_eq!(
        r.body,
        "from(bucket: \"Bad_bucket\")\n |> range(start: 2023-01-04T00:00:00Z, stop: 2023-01-02T00:00:00Z)"
    );
    assert_eq!(r.headers[0].1, "Token ");
}

#[test]
fn follow_up_query_reads_back_the_time() {
    let now = UtcTime { secs: 1_700_000_000, nanos: 123_456_789 };
    let (end, q) = DataIngestor::follow_up_query("tok", now);
    let end = end.unwrap();
    assert_eq!(end, "2023-11-14T22:13:20.123456Z");
    assert_eq!(
        q.body,
        "from(bucket: \"Binance\")\n |> range(start: 2023-01-01T00:00:00Z, stop: 2023-11-14T22:13:20.123456Z)"
    );
}
