//! Market-data ingestion: packets from exchanges are routed into buffers,
//! turned into line-protocol messages or JSON records, and written out in
//! batches once a buffer passes its capacity. The requests to the storage
//! services (InfluxDB, and an AWS Timestream query signed in the SigV4 style)
//! are built here; sending them is left to the caller.

pub mod api_gateway;
pub mod awsuploader;
pub mod channel;
pub mod channel_messenger;
pub mod channelmessenger;
pub mod crypto;
pub mod data;
pub mod data_ingestor;
pub mod receiver;
pub mod sender;
pub mod text;
pub mod timefmt;

pub use awsuploader::{AWSUploader, Buffers, Stream, Upload};
pub use channel_messenger::ChannelMessenger;
pub use data::{AWSData, DataEnum, DataPacket, ExchangeEnum, MarketIncremental, RefreshBidAsk, SymbolEnum};
pub use data_ingestor::{Buffer, DataIngestor, HttpRequest, IngestAction, Route};
pub use receiver::Receiver;
pub use sender::Sender;
pub use timefmt::{TimeParseError, UtcTime};
