use vstd::prelude::*;

use crate::data::{law_payload_sides, levels_or_empty, levels_text, symbol_label, DataEnum, DataPacket, ExchangeEnum, MarketIncremental, RefreshBidAsk};
use crate::text::{debug_string, debug_text, decimal, join_lines, join_with_newlines, owned, push_decimal};
use crate::timefmt::{reformat_utc, reformatted, TimeParseError, UtcTime};

verus! {

/// An HTTP request for the storage service: where it goes, its headers in
/// order, and its body.
#[derive(Debug)]
pub struct HttpRequest {
    pub url: String,
    pub headers: Vec<(String, String)>,
    pub body: String,
}

impl HttpRequest {
    /// The headers as pairs of texts.
    pub open spec fn header_texts(self) -> Seq<(Seq<char>, Seq<char>)> {
        self.headers@.map_values(|h: (String, String)| (h.0@, h.1@))
    }
}

/// The organization under which the buckets are kept.
pub open spec fn organization() -> Seq<char> {
    "devteam"@
}

/// The value of the `Authorization` header for an API token.
pub open spec fn auth_value(api_token: Seq<char>) -> Seq<char> {
    "Token "@ + api_token
}

/// The URL that a query is posted to.
pub open spec fn query_url() -> Seq<char> {
    "https://us-east-1-1.aws.cloud2.influxdata.com/api/v2/query?org="@ + organization()
}

/// The URL that a bucket's lines are written to.
pub open spec fn write_url(bucket: Seq<char>) -> Seq<char> {
    "https://us-east-1-1.aws.cloud2.influxdata.com/api/v2/write?org="@ + organization() + "&bucket="@
        + bucket
}

/// The Flux query for a bucket over a time range.
pub open spec fn flux_query(bucket: Seq<char>, start: Seq<char>, stop: Seq<char>) -> Seq<char> {
    "from(bucket: \""@ + bucket + "\")\n |> range(start: "@ + start + ", stop: "@ + stop + ")"@
}

/// The request that queries `bucket` between `start` and `stop`.
pub open spec fn is_query_request(
    r: HttpRequest,
    api_token: Seq<char>,
    start: Seq<char>,
    stop: Seq<char>,
    bucket: Seq<char>,
) -> bool {
    &&& r.url@ == query_url()
    &&& r.header_texts() == seq![
        ("Authorization"@, auth_value(api_token)),
        ("Accept"@, "application/csv"@),
        ("Content-type"@, "application/vnd.flux"@),
    ]
    &&& r.body@ == flux_query(bucket, start, stop)
}

/// The `Authorization` value is "Token " followed by the API token's
/// characters unchanged, so different tokens give different values.
pub proof fn law_authorization_carries_token(t1: Seq<char>, t2: Seq<char>)
    ensures
        auth_value(t1).subrange(0, 6) == "Token "@,
        auth_value(t1).subrange(6, auth_value(t1).len() as int) == t1,
        auth_value(t1) == auth_value(t2) ==> t1 == t2,
{
    reveal_strlit("Token ");
    assert(auth_value(t1).subrange(0, 6) =~= "Token "@);
    assert(auth_value(t1).subrange(6, auth_value(t1).len() as int) =~= t1);
    assert(auth_value(t2).subrange(6, auth_value(t2).len() as int) =~= t2);
}

/// A query request authorizes with the token it was built for: its first
/// header is `Authorization`, whose value is "Token " followed by the token
/// unchanged.
pub proof fn law_query_request_authorization(
    r: HttpRequest,
    api_token: Seq<char>,
    start: Seq<char>,
    stop: Seq<char>,
    bucket: Seq<char>,
)
    requires
        is_query_request(r, api_token, start, stop, bucket),
    ensures
        r.headers@.len() == 3,
        r.headers@[0].0@ == "Authorization"@,
        r.headers@[0].1@.subrange(0, 6) == "Token "@,
        r.headers@[0].1@.subrange(6, r.headers@[0].1@.len() as int) == api_token,
{
    assert(r.header_texts().len() == 3);
    assert(r.header_texts()[0] == (r.headers@[0].0@, r.headers@[0].1@));
    law_authorization_carries_token(api_token, api_token);
}

/// The stored message shows each side of the packet's own payload: after
/// `asks=` the quoted text of its `asks` field and after `,bids=` the quoted
/// text of its `bids` field, whichever kind of payload it is.
pub proof fn law_message_shows_each_side(p: DataPacket, timestamp: nat)
    ensures
        ({
            let (asks, bids) = match p.data {
                DataEnum::MBP(m) => (m.asks, m.bids),
                DataEnum::RBA(r) => (r.asks, r.bids),
            };
            packet_message(p, timestamp) == p.channel@ + "-"@ + symbol_label(p.symbol_pair)
                + " asks="@ + debug_text(levels_text(asks)) + ",bids="@ + debug_text(
                levels_text(bids),
            ) + " "@ + decimal(timestamp)
        }),
{
    match p.data {
        DataEnum::MBP(m) => law_payload_sides(m, RefreshBidAsk { asks: m.asks, bids: m.bids }),
        DataEnum::RBA(r) => law_payload_sides(MarketIncremental { asks: r.asks, bids: r.bids }, r),
    }
}

/// A bucket of line-protocol messages waiting to be written.
#[derive(Debug)]
pub struct Buffer {
    pub storage: Vec<String>,
    pub bucket: String,
}

/// Builds a header.
fn header(name: &str, value: String) -> (h: (String, String))
    ensures
        h.0@ == name@,
        h.1@ == value@,
{
    (owned(name), value)
}

impl Buffer {
    /// The stored messages as texts.
    pub open spec fn lines(self) -> Seq<Seq<char>> {
        self.storage@.map_values(|l: String| l@)
    }

    /// An empty buffer for a bucket.
    pub fn new(bucket_name: String) -> (b: Buffer)
        ensures
            b.storage@.len() == 0,
            b.bucket == bucket_name,
    {
        Buffer { storage: Vec::new(), bucket: bucket_name }
    }

    /// The body written to the bucket: the stored messages, one per line.
    pub fn payload(&self) -> (r: String)
        ensures
            r@ == join_lines(self.lines()),
    {
        join_with_newlines(&self.storage)
    }

    /// The request that writes the stored messages to the bucket.
    pub fn push_request(&self, api_token: &str) -> (r: HttpRequest)
        ensures
            r.url@ == write_url(self.bucket@),
            r.header_texts() == seq![
                ("Authorization"@, auth_value(api_token@)),
                ("Content-Type"@, "text/plain; charset=utf-8"@),
                ("Accept"@, "application/json"@),
            ],
            r.body@ == join_lines(self.lines()),
    {
        let mut url = owned("https://us-east-1-1.aws.cloud2.influxdata.com/api/v2/write?org=");
        url.append("devteam");
        url.append("&bucket=");
        url.append(self.bucket.as_str());
        let mut auth = owned("Token ");
        auth.append(api_token);
        let mut headers: Vec<(String, String)> = Vec::new();
        headers.push(header("Authorization", auth));
        headers.push(header("Content-Type", owned("text/plain; charset=utf-8")));
        headers.push(header("Accept", owned("application/json")));
        let r = HttpRequest { url, headers, body: self.payload() };
        assert(r.header_texts() =~= seq![
            ("Authorization"@, auth_value(api_token@)),
            ("Content-Type"@, "text/plain; charset=utf-8"@),
            ("Accept"@, "application/json"@),
        ]);
        assert(r.url@ =~= write_url(self.bucket@));
        r
    }

    /// The request that queries a bucket over the range from `startdate` to
    /// `enddate` (RFC 3339 times).
    pub fn query_request(api_token: &str, startdate: &str, enddate: &str, bucket_name: &str) -> (r:
        HttpRequest)
        ensures
            is_query_request(r, api_token@, startdate@, enddate@, bucket_name@),
            r.headers@.len() == 3,
            r.headers@[0].0@ == "Authorization"@,
            r.headers@[0].1@ == "Token "@ + api_token@,
    {
        let mut url = owned("https://us-east-1-1.aws.cloud2.influxdata.com/api/v2/query?org=");
        url.append("devteam");
        let mut flux = owned("from(bucket: \"");
        flux.append(bucket_name);
        flux.append("\")\n |> range(start: ");
        flux.append(startdate);
        flux.append(", stop: ");
        flux.append(enddate);
        flux.append(")");
        let mut auth = owned("Token ");
        auth.append(api_token);
        let mut headers: Vec<(String, String)> = Vec::new();
        headers.push(header("Authorization", auth));
        headers.push(header("Accept", owned("application/csv")));
        headers.push(header("Content-type", owned("application/vnd.flux")));
        let r = HttpRequest { url, headers, body: flux };
        assert(r.header_texts() =~= seq![
            ("Authorization"@, auth_value(api_token@)),
            ("Accept"@, "application/csv"@),
            ("Content-type"@, "application/vnd.flux"@),
        ]);
        assert(r.url@ =~= query_url());
        assert(r.body@ =~= flux_query(bucket_name@, startdate@, enddate@));
        r
    }
}

/// The two buffers of the ingestor.
#[derive(Clone, Copy, Debug, PartialEq, Eq, Structural)]
pub enum Route {
    Binance,
    Huobi,
}

/// What the ingestor did with a packet.
#[derive(Clone, Copy, Debug, PartialEq, Eq, Structural)]
pub enum IngestAction {
    /// The message was stored and the buffer is within its capacity.
    Buffered(Route),
    /// The message was stored and the buffer now holds more than its
    /// capacity: its contents are to be written out.
    Flush(Route),
}

/// The buffer a packet goes to: the one of its exchange.
pub open spec fn ingest_route(e: ExchangeEnum) -> Route {
    match e {
        ExchangeEnum::Binance => Route::Binance,
        ExchangeEnum::Huobi => Route::Huobi,
    }
}

/// The buffer other than `r`.
pub open spec fn other_route(r: Route) -> Route {
    match r {
        Route::Binance => Route::Huobi,
        Route::Huobi => Route::Binance,
    }
}

/// The line-protocol message stored for a packet received at `timestamp`
/// (nanoseconds since the Unix epoch):
/// `{channel}-{symbol} asks={asks:?},bids={bids:?} {timestamp}`.
pub open spec fn packet_message(p: DataPacket, timestamp: nat) -> Seq<char> {
    p.channel@ + "-"@ + symbol_label(p.symbol_pair) + " asks="@ + debug_text(
        levels_text(p.data.spec_asks()),
    ) + ",bids="@ + debug_text(levels_text(p.data.spec_bids())) + " "@ + decimal(timestamp)
}

/// The line-protocol message for a packet received at `timestamp`.
pub fn packet_message_string(p: &DataPacket, timestamp: u128) -> (m: String)
    ensures
        m@ == packet_message(*p, timestamp as nat),
{
    let mut m = p.channel.clone();
    m.append("-");
    m.append(p.symbol_pair.as_str());
    m.append(" asks=");
    let asks = levels_or_empty(p.data.asks());
    m.append(debug_string(asks.as_str()).as_str());
    m.append(",bids=");
    let bids = levels_or_empty(p.data.bids());
    m.append(debug_string(bids.as_str()).as_str());
    m.append(" ");
    push_decimal(&mut m, timestamp);
    assert(m@ =~= packet_message(*p, timestamp as nat));
    m
}

/// The start of the range queried after a successful write.
pub open spec fn follow_up_start() -> Seq<char> {
    "2023-01-01T00:00:00Z"@
}

/// The end of the range queried after a successful write at `now`: the time
/// read back by `reformat_utc`, or empty where it could not be read back.
pub open spec fn follow_up_end(now: UtcTime) -> Seq<char> {
    match reformatted(now) {
        Some(s) => s,
        None => Seq::empty(),
    }
}

/// The ingesting side's state: one buffer per exchange and the number of
/// messages a buffer may hold before it is written out.
#[derive(Debug)]
pub struct DataIngestor {
    pub binance: Buffer,
    pub huobi: Buffer,
    pub buffer_capacity: usize,
}

impl DataIngestor {
    /// The buffer for a route.
    pub open spec fn buffer_of(self, r: Route) -> Buffer {
        match r {
            Route::Binance => self.binance,
            Route::Huobi => self.huobi,
        }
    }

    /// An ingestor with empty buffers for the buckets "Binance" and "Huobi".
    pub fn new(buf_capacity: usize) -> (d: DataIngestor)
        ensures
            d.binance.storage@.len() == 0,
            d.binance.bucket@ == "Binance"@,
            d.huobi.storage@.len() == 0,
            d.huobi.bucket@ == "Huobi"@,
            d.buffer_capacity == buf_capacity,
    {
        DataIngestor {
            binance: Buffer::new(owned("Binance")),
            huobi: Buffer::new(owned("Huobi")),
            buffer_capacity: buf_capacity,
        }
    }

    /// Stores the message for a packet received at `timestamp` in the buffer
    /// of its exchange, and says whether that buffer is now to be written out.
    pub fn filter_buffer(&mut self, data_packet: &DataPacket, timestamp: u128) -> (action:
        IngestAction)
        ensures
            final(self).buffer_capacity == old(self).buffer_capacity,
            ({
                let r = ingest_route(data_packet.exchange);
                let new_len = old(self).buffer_of(r).storage@.len() + 1;
                &&& final(self).buffer_of(r).lines() == old(self).buffer_of(r).lines().push(
                    packet_message(*data_packet, timestamp as nat),
                )
                &&& final(self).buffer_of(r).storage@.len() == new_len
                &&& final(self).buffer_of(r).bucket == old(self).buffer_of(r).bucket
                &&& final(self).buffer_of(other_route(r)) == old(self).buffer_of(other_route(r))
                &&& action == if new_len > old(self).buffer_capacity {
                    IngestAction::Flush(r)
                } else {
                    IngestAction::Buffered(r)
                }
            }),
    {
        let route = match data_packet.exchange {
            ExchangeEnum::Binance => Route::Binance,
            ExchangeEnum::Huobi => Route::Huobi,
        };
        let message = packet_message_string(data_packet, timestamp);
        let buffer = match route {
            Route::Binance => &mut self.binance,
            Route::Huobi => &mut self.huobi,
        };
        let ghost before = buffer.lines();
        buffer.storage.push(message);
        assert(buffer.lines() =~= before.push(packet_message(*data_packet, timestamp as nat)));
        if buffer.storage.len() > self.buffer_capacity {
            IngestAction::Flush(route)
        } else {
            IngestAction::Buffered(route)
        }
    }

    /// Empties a buffer after its contents were written out.
    pub fn flush_succeeded(&mut self, route: Route)
        ensures
            final(self).buffer_of(route).storage@.len() == 0,
            final(self).buffer_of(route).bucket == old(self).buffer_of(route).bucket,
            route == Route::Binance ==> final(self).huobi == old(self).huobi,
            route == Route::Huobi ==> final(self).binance == old(self).binance,
            final(self).buffer_capacity == old(self).buffer_capacity,
    {
        match route {
            Route::Binance => self.binance.storage.clear(),
            Route::Huobi => self.huobi.storage.clear(),
        }
    }

    /// After a successful write at `now`: the current time read back (or why
    /// it could not be), and the query for the "Binance" bucket from
    /// 2023-01-01 up to that time.
    pub fn follow_up_query(api_token: &str, now: UtcTime) -> (r: (
        Result<String, TimeParseError>,
        HttpRequest,
    ))
        requires
            now.valid(),
        ensures
            r.0 is Ok <==> reformatted(now) is Some,
            r.0 matches Ok(s) ==> Some(s@) == reformatted(now),
            is_query_request(r.1, api_token@, follow_up_start(), follow_up_end(now), "Binance"@),
    {
        let end = reformat_utc(now);
        let end_text = match &end {
            Ok(s) => s.clone(),
            Err(_) => String::new(),
        };
        let q = Buffer::query_request(api_token, "2023-01-01T00:00:00Z", end_text.as_str(), "Binance");
        (end, q)
    }

    /// Handles the outcome of writing out the buffer of `route`. After a
    /// successful write (`written`) the buffer is emptied, and the result is
    /// the current time read back (or why it could not be) with the query for
    /// the "Binance" bucket from 2023-01-01 up to that time. After a failed
    /// write nothing changes (the messages are kept) and no query follows.
    pub fn after_write(&mut self, route: Route, written: bool, api_token: &str, now: UtcTime) -> (r:
        Option<(Result<String, TimeParseError>, HttpRequest)>)
        requires
            now.valid(),
        ensures
            !written ==> r is None && *final(self) == *old(self),
            written ==> {
                &&& final(self).buffer_of(route).storage@.len() == 0
                &&& final(self).buffer_of(route).bucket == old(self).buffer_of(route).bucket
                &&& final(self).buffer_of(other_route(route)) == old(self).buffer_of(
                    other_route(route),
                )
                &&& final(self).buffer_capacity == old(self).buffer_capacity
                &&& r matches Some((end, q)) && (end is Ok <==> reformatted(now) is Some) && (
                end matches Ok(s) ==> Some(s@) == reformatted(now)) && is_query_request(
                    q,
                    api_token@,
                    follow_up_start(),
                    follow_up_end(now),
                    "Binance"@,
                )
            },
    {
        if !written {
            return None;
        }
        self.flush_succeeded(route);
        Some(DataIngestor::follow_up_query(api_token, now))
    }
}

} // verus!
