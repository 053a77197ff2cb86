use data_package::channelmessenger::ChannelMessenger as CloningMessenger;
use data_package::{ChannelMessenger, DataEnum, DataPacket, ExchangeEnum, MarketIncremental, Receiver, Sender, SymbolEnum};
use std::sync::mpsc;

#[test]
fn sender_delivers_until_receiver_is_gone() {
    let (tx, rx) = mpsc::channel::<u32>();
    let s = Sender::new(tx);
    assert!(s.send_data(7));
    assert_eq!(rx.recv().unwrap(), 7);
    drop(rx);
    assert!(!s.send_data(8));
}

#[test]
fn cloning_messenger_sends_a_copy() {
    let (tx, rx) = mpsc::channel::<String>();
    let m = CloningMessenger::new(tx);
    let value = "v".to_string();
    assert!(m.send_data(&value));
    assert_eq!(rx.recv().unwrap(), "v");
    assert_eq!(value, "v");
}

#[test]
fn packet_messenger_reports_closed_channel() {
    let (tx, rx) = mpsc::channel();
    let m = ChannelMessenger::new(tx);
    drop(rx);
    let p = DataPacket {
        data: DataEnum::MBP(MarketIncremental { asks: None, bids: None }),
        exchange: ExchangeEnum::Binance,
        symbol_pair: SymbolEnum::BTCUSD,
        channel: "Market".to_string(),
        timestamp: 1,
    };
    assert!(!m.send_data(p));
}

#[test]
fn receiver_uploads_past_capacity() {
    let mut r: Receiver<u32> = Receiver {
        buffer: Vec::new(),
        buffer_capacity: 2,
        database: "db".to_string(),
        table: "tb".to_string(),
    };
    assert!(r.receive_data(Some(1)));
    assert!(r.receive_data(Some(2)));
    assert_eq!(r.buffer, vec![1, 2]);
    assert!(r.receive_data(Some(3)));
    assert!(r.buffer.is_empty());
    assert!(!r.receive_data(None));
    assert!(r.buffer.is_empty());
    assert_eq!(r.database, "db");
    assert_eq!(r.table, "tb");
}

#[test]
fn receiver_upload_empties_buffer() {
    let mut r: Receiver<u32> = Receiver {
        buffer: vec![1, 2, 3, 4],
        buffer_capacity: 2,
        database: String::new(),
        table: String::new(),
    };
    assert!(!r.receive_data(None));
    assert!(r.buffer.is_empty());
    r.buffer.push(9);
    r.upload_data();
    assert!(r.buffer.is_empty());
}
