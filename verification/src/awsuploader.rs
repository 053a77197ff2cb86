use vstd::prelude::*;
use vstd::utf8::encode_utf8;

use crate::crypto::{hex_encode, hmac_sha256, hmac_sha256_sign, sha256, sha256_digest};
use crate::data::{levels_or_empty, levels_text, AWSData, DataPacket, ExchangeEnum};
use crate::text::{hex_decode, hex_lower, is_hex_digit, lemma_hex_round_trip, lowercase_string, lowercase_text, owned, push_hex_lower, same_text};
use crate::timefmt::{compact_date_text, format_compact_date, format_rfc3339, rfc3339_text, UtcTime};

verus! {

/// Lower-case hex of the UTF-8 bytes of a text, as `hex::encode` gives it.
pub open spec fn hex_of_text(s: Seq<char>) -> Seq<char> {
    hex_lower(encode_utf8(s))
}

/// Lower-case hex of the SHA-256 digest of a text's UTF-8 bytes.
pub open spec fn sha256_hex(s: Seq<char>) -> Seq<char> {
    hex_lower(sha256(encode_utf8(s)))
}

/// Lower-case hex of the HMAC-SHA256 tag of a text under a key text
/// (both taken as their UTF-8 bytes).
pub open spec fn hmac_hex(key: Seq<char>, msg: Seq<char>) -> Seq<char> {
    hex_lower(hmac_sha256(encode_utf8(key), encode_utf8(msg)))
}

/// The canonical request for a method and payload: the method followed by
/// the hex of the hex SHA-256 of the payload.
pub open spec fn canonical_text(method: Seq<char>, payload: Seq<char>) -> Seq<char> {
    method + hex_of_text(sha256_hex(payload))
}

/// The text that is signed, from its parts.
pub open spec fn sign_text(
    stamp: Seq<char>,
    date: Seq<char>,
    region: Seq<char>,
    service: Seq<char>,
    hashed_canonical: Seq<char>,
) -> Seq<char> {
    "AWS4-HMAC-SHA256\n"@ + stamp + "\n"@ + date + "/"@ + region + "/"@ + service
        + "/aws4_request\n"@ + hashed_canonical
}

/// The text that is signed, at `now`.
pub open spec fn string_to_sign_text(
    canonical: Seq<char>,
    region: Seq<char>,
    service: Seq<char>,
    now: UtcTime,
) -> Seq<char> {
    sign_text(
        rfc3339_text(now.secs as int, now.nanos as int),
        compact_date_text(now.secs as int, now.nanos as int),
        region,
        service,
        hex_of_text(sha256_hex(canonical)),
    )
}

/// The signing key chain and signature at `now`: each key is the hex HMAC
/// of the next scope under the previous key, starting from "AWS4dfd".
pub open spec fn signature_text(to_sign: Seq<char>, now: UtcTime) -> Seq<char> {
    let kdate = hmac_hex("AWS4dfd"@, compact_date_text(now.secs as int, now.nanos as int));
    let kregion = hmac_hex(kdate, "us-east-1"@);
    let kservice = hmac_hex(kregion, "timestream"@);
    let ksigning = hmac_hex(kservice, "aws4_request"@);
    hex_of_text(hmac_hex(ksigning, to_sign))
}

/// The signed query URL, from its parts.
pub open spec fn signed_url(
    access_key: Seq<char>,
    date: Seq<char>,
    region: Seq<char>,
    service: Seq<char>,
    stamp: Seq<char>,
    signature: Seq<char>,
) -> Seq<char> {
    "https://query.timestream.us-east-1.amazonaws.com/?Action=Query&Version=2023-11-14"@
        + "X-Amz-Algorithm=AWS4-HMAC-SHA256&"@ + "X-Amz-Credential="@ + access_key + "/"@ + date
        + "/"@ + region + "/"@ + service + "/aws4_request&"@ + "X-Amz-Date="@ + stamp + "&"@
        + "X-Amz-SignedHeaders=host;x-amz-date&"@ + "X-Amz-Signature="@ + signature
}

/// The signed query URL for a payload at `now`.
pub open spec fn query_url_text(payload: Seq<char>, now: UtcTime) -> Seq<char> {
    let region = "us-east-1"@;
    let service = "timestream"@;
    let canonical = canonical_text("GET"@, payload);
    let signature = signature_text(string_to_sign_text(canonical, region, service, now), now);
    signed_url(
        Seq::empty(),
        compact_date_text(now.secs as int, now.nanos as int),
        region,
        service,
        rfc3339_text(now.secs as int, now.nanos as int),
        signature,
    )
}

/// Assembles the text to sign from its parts.
pub fn assemble_string_to_sign(
    stamp: &str,
    date: &str,
    region: &str,
    service: &str,
    hashed_canonical: &str,
) -> (r: String)
    ensures
        r@ == sign_text(stamp@, date@, region@, service@, hashed_canonical@),
{
    let mut result = owned("AWS4-HMAC-SHA256\n");
    result.append(stamp);
    result.append("\n");
    result.append(date);
    result.append("/");
    result.append(region);
    result.append("/");
    result.append(service);
    result.append("/aws4_request\n");
    result.append(hashed_canonical);
    assert(result@ =~= sign_text(stamp@, date@, region@, service@, hashed_canonical@));
    result
}

/// Assembles the signed query URL from its parts.
pub fn assemble_signed_url(
    access_key: &str,
    date: &str,
    region: &str,
    service: &str,
    stamp: &str,
    signature: &str,
) -> (r: String)
    ensures
        r@ == signed_url(access_key@, date@, region@, service@, stamp@, signature@),
{
    let mut result = owned(
        "https://query.timestream.us-east-1.amazonaws.com/?Action=Query&Version=2023-11-14",
    );
    result.append("X-Amz-Algorithm=AWS4-HMAC-SHA256&");
    result.append("X-Amz-Credential=");
    result.append(access_key);
    result.append("/");
    result.append(date);
    result.append("/");
    result.append(region);
    result.append("/");
    result.append(service);
    result.append("/aws4_request&");
    result.append("X-Amz-Date=");
    result.append(stamp);
    result.append("&");
    result.append("X-Amz-SignedHeaders=host;x-amz-date&");
    result.append("X-Amz-Signature=");
    result.append(signature);
    assert(result@ =~= signed_url(access_key@, date@, region@, service@, stamp@, signature@));
    result
}

/// The canonical request binds the payload's digest: two canonical requests
/// for the same method are equal only when the SHA-256 digests of the two
/// payloads are equal (the digest is recovered by reading the hex back).
pub proof fn law_canonical_request_binds_digest(method: Seq<char>, p1: Seq<char>, p2: Seq<char>)
    ensures
        canonical_text(method, p1) == canonical_text(method, p2) ==> sha256(encode_utf8(p1))
            == sha256(encode_utf8(p2)),
        canonical_text(method, p1).subrange(0, method.len() as int) == method,
{
    let c1 = canonical_text(method, p1);
    let c2 = canonical_text(method, p2);
    assert(c1.subrange(0, method.len() as int) =~= method);
    if c1 == c2 {
        let h1 = sha256_hex(p1);
        let h2 = sha256_hex(p2);
        assert(c1.subrange(method.len() as int, c1.len() as int) =~= hex_of_text(h1));
        assert(c2.subrange(method.len() as int, c2.len() as int) =~= hex_of_text(h2));
        lemma_hex_round_trip(encode_utf8(h1));
        lemma_hex_round_trip(encode_utf8(h2));
        assert(encode_utf8(h1) == encode_utf8(h2));
        vstd::utf8::encode_utf8_decode_utf8(h1);
        vstd::utf8::encode_utf8_decode_utf8(h2);
        assert(h1 == h2);
        lemma_hex_round_trip(sha256(encode_utf8(p1)));
        lemma_hex_round_trip(sha256(encode_utf8(p2)));
    }
}

/// The part of the signed URL that does not depend on the payload.
pub open spec fn signed_url_head(now: UtcTime) -> Seq<char> {
    signed_url(
        Seq::empty(),
        compact_date_text(now.secs as int, now.nanos as int),
        "us-east-1"@,
        "timestream"@,
        rfc3339_text(now.secs as int, now.nanos as int),
        Seq::empty(),
    )
}

/// The signed query URL is a payload-free head followed by the signature,
/// and that signature is taken, through the key chain of `now`, over the
/// text to sign for the canonical "GET" request of the given payload. So at
/// one time two payloads give the same URL exactly when they give the same
/// signature over their own canonical requests.
pub proof fn law_query_url_signs_payload(p1: Seq<char>, p2: Seq<char>, now: UtcTime)
    ensures
        ({
            let sig1 = signature_text(
                string_to_sign_text(canonical_text("GET"@, p1), "us-east-1"@, "timestream"@, now),
                now,
            );
            let sig2 = signature_text(
                string_to_sign_text(canonical_text("GET"@, p2), "us-east-1"@, "timestream"@, now),
                now,
            );
            &&& query_url_text(p1, now) == signed_url_head(now) + sig1
            &&& (query_url_text(p1, now) == query_url_text(p2, now) <==> sig1 == sig2)
        }),
{
    let sig1 = signature_text(
        string_to_sign_text(canonical_text("GET"@, p1), "us-east-1"@, "timestream"@, now),
        now,
    );
    let sig2 = signature_text(
        string_to_sign_text(canonical_text("GET"@, p2), "us-east-1"@, "timestream"@, now),
        now,
    );
    let head = signed_url_head(now);
    assert(query_url_text(p1, now) =~= head + sig1);
    assert(query_url_text(p2, now) =~= head + sig2);
    if query_url_text(p1, now) == query_url_text(p2, now) {
        assert(sig1 =~= (head + sig1).subrange(head.len() as int, (head + sig1).len() as int));
        assert(sig2 =~= (head + sig2).subrange(head.len() as int, (head + sig2).len() as int));
    }
}

/// The buffers of the AWS upload path, one per exchange and channel.
#[derive(Debug)]
pub struct Buffers {
    pub binance_market: Vec<AWSData>,
    pub binance_trade: Vec<AWSData>,
    pub huobi_market: Vec<AWSData>,
    pub huobi_trade: Vec<AWSData>,
}

impl Buffers {
    /// Four empty buffers.
    pub fn empty() -> (b: Buffers)
        ensures
            b.binance_market@.len() == 0,
            b.binance_trade@.len() == 0,
            b.huobi_market@.len() == 0,
            b.huobi_trade@.len() == 0,
    {
        Buffers {
            binance_market: Vec::new(),
            binance_trade: Vec::new(),
            huobi_market: Vec::new(),
            huobi_trade: Vec::new(),
        }
    }

    /// The text in lower case.
    pub fn lowercase(&self, string: String) -> (r: String)
        ensures
            r@ == lowercase_text(string@),
    {
        lowercase_string(string.as_str())
    }

    /// Lower-case hex of the text's UTF-8 bytes: two digits per byte, which
    /// read back to those bytes.
    pub fn hex(&self, input: String) -> (r: String)
        ensures
            r@ == hex_of_text(input@),
            r@.len() == 2 * encode_utf8(input@).len(),
            forall|i: int| 0 <= i < r@.len() ==> is_hex_digit(#[trigger] r@[i]),
            hex_decode(r@) == encode_utf8(input@),
    {
        let r = hex_encode(input.as_str().as_bytes());
        proof {
            lemma_hex_round_trip(encode_utf8(input@));
        }
        r
    }

    /// Lower-case hex of the SHA-256 digest of the text's UTF-8 bytes.
    pub fn sha256hash(&self, input: String) -> (r: String)
        ensures
            r@ == sha256_hex(input@),
            r@.len() == 64,
    {
        let digest = sha256_digest(input.as_str().as_bytes());
        let mut r = String::new();
        push_hex_lower(&mut r, digest.as_slice());
        proof {
            lemma_hex_round_trip(digest@);
        }
        r
    }

    /// Lower-case hex of the HMAC-SHA256 tag of `input` under `signing_key`.
    pub fn hmac_sh256(&self, signing_key: String, input: String) -> (r: String)
        ensures
            r@ == hmac_hex(signing_key@, input@),
            r@.len() == 64,
    {
        let tag = hmac_sha256_sign(signing_key.as_str().as_bytes(), input.as_str().as_bytes());
        let mut r = String::new();
        push_hex_lower(&mut r, tag.as_slice());
        proof {
            lemma_hex_round_trip(tag@);
        }
        r
    }

    /// The canonical request: the method followed by the hex of the hashed
    /// payload (the empty payload is hashed like any other).
    pub fn canonical_request(&self, method: String, payload: String) -> (r: String)
        ensures
            r@ == canonical_text(method@, payload@),
    {
        let canonical_uri = "";
        let canonical_query_string = "";
        let canonical_headers = "";
        let signed_headers = "";
        let mut hashed_payload: String = self.hex(self.sha256hash(String::new()));
        if !payload.as_str().is_empty() {
            hashed_payload = self.hex(self.sha256hash(payload.clone()));
        }
        proof {
            reveal_strlit("");
            if payload@.len() == 0 {
                assert(payload@ =~= Seq::<char>::empty());
            }
        }
        let mut result = method.clone();
        result.append(canonical_uri);
        result.append(canonical_query_string);
        result.append(canonical_headers);
        result.append(signed_headers);
        result.append(hashed_payload.as_str());
        assert(result@ =~= canonical_text(method@, payload@));
        result
    }

    /// The text to sign at `now` for a canonical request, region and service.
    pub fn string_to_sign(
        &self,
        canonical_request: String,
        region: String,
        service: String,
        now: UtcTime,
    ) -> (r: String)
        requires
            now.valid(),
        ensures
            r@ == string_to_sign_text(canonical_request@, region@, service@, now),
    {
        let hashed = self.hex(self.sha256hash(canonical_request));
        let stamp = format_rfc3339(now);
        let date = format_compact_date(now);
        assemble_string_to_sign(stamp.as_str(), date.as_str(), region.as_str(), service.as_str(), hashed.as_str())
    }

    /// The signature of a text at `now`, through the key chain of date,
    /// region, service and "aws4_request".
    pub fn calc_signature(&self, string_to_sign_: String, now: UtcTime) -> (r: String)
        requires
            now.valid(),
        ensures
            r@ == signature_text(string_to_sign_@, now),
    {
        let mut secret = owned("AWS4");
        secret.append("dfd");
        proof {
            reveal_strlit("AWS4");
            reveal_strlit("dfd");
            reveal_strlit("AWS4dfd");
            assert(secret@ =~= "AWS4dfd"@);
        }
        let kdate = self.hmac_sh256(secret, format_compact_date(now));
        let kregion = self.hmac_sh256(kdate, owned("us-east-1"));
        let kservice = self.hmac_sh256(kregion, owned("timestream"));
        let ksigning = self.hmac_sh256(kservice, owned("aws4_request"));
        let signature = self.hmac_sh256(ksigning, string_to_sign_);
        self.hex(signature)
    }

    /// The signed query URL for a payload at `now`.
    pub fn make_query_request(&self, payload: String, now: UtcTime) -> (r: String)
        requires
            now.valid(),
        ensures
            r@ == query_url_text(payload@, now),
    {
        let region = owned("us-east-1");
        let service = owned("timestream");
        let access_key = "";
        let canonical = self.canonical_request(owned("GET"), payload);
        let to_sign = self.string_to_sign(canonical, region.clone(), service.clone(), now);
        let signature = self.calc_signature(to_sign, now);
        let date = format_compact_date(now);
        let stamp = format_rfc3339(now);
        proof {
            reveal_strlit("");
        }
        assemble_signed_url(
            access_key,
            date.as_str(),
            region.as_str(),
            service.as_str(),
            stamp.as_str(),
            signature.as_str(),
        )
    }
}

/// The buffer of the AWS path that a packet goes to.
#[derive(Clone, Copy, Debug, PartialEq, Eq, Structural)]
pub enum Stream {
    BinanceMarket,
    BinanceTrade,
    HuobiMarket,
    HuobiTrade,
}

/// The stream for an exchange and channel, if any.
pub open spec fn aws_stream(exchange: ExchangeEnum, channel: Seq<char>) -> Option<Stream> {
    if channel == "Market"@ {
        match exchange {
            ExchangeEnum::Binance => Some(Stream::BinanceMarket),
            ExchangeEnum::Huobi => Some(Stream::HuobiMarket),
        }
    } else if channel == "Trade"@ {
        match exchange {
            ExchangeEnum::Binance => Some(Stream::BinanceTrade),
            ExchangeEnum::Huobi => Some(Stream::HuobiTrade),
        }
    } else {
        None
    }
}

/// A record as its JSON text and time.
pub open spec fn record_view(d: AWSData) -> (Seq<char>, UtcTime) {
    (d.json@, d.timestamp)
}

/// A batch of buffered records to be posted as JSON.
#[derive(Debug)]
pub struct Upload {
    pub url: String,
    pub content_type: String,
    pub batch: Vec<AWSData>,
}

/// The AWS upload path's state: its buffers and the number of records a
/// buffer may hold before it is posted.
#[derive(Debug)]
pub struct AWSUploader {
    pub buffers: Buffers,
    pub buffer_capacity: usize,
}

impl AWSUploader {
    /// The buffer of a stream.
    pub open spec fn stream_of(self, s: Stream) -> Vec<AWSData> {
        match s {
            Stream::BinanceMarket => self.buffers.binance_market,
            Stream::BinanceTrade => self.buffers.binance_trade,
            Stream::HuobiMarket => self.buffers.huobi_market,
            Stream::HuobiTrade => self.buffers.huobi_trade,
        }
    }

    /// The records of a stream as texts and times.
    pub open spec fn records(self, s: Stream) -> Seq<(Seq<char>, UtcTime)> {
        self.stream_of(s)@.map_values(|d: AWSData| record_view(d))
    }

    /// An uploader over the given buffers.
    pub fn new(bufs: Buffers, buf_capacity: usize) -> (u: AWSUploader)
        ensures
            u.buffers == bufs,
            u.buffer_capacity == buf_capacity,
    {
        AWSUploader { buffers: bufs, buffer_capacity: buf_capacity }
    }

    /// Stores the packet's ask levels with the time `now` in the buffer of its
    /// exchange and channel. When that buffer is already full (it holds
    /// `buffer_capacity` records or more), its records are first handed out
    /// for posting and it is cleared; then the new record is pushed.
    pub fn filter_buffer(&mut self, data: DataPacket, now: UtcTime) -> (upload: Option<Upload>)
        ensures
            final(self).buffer_capacity == old(self).buffer_capacity,
            forall|t: Stream|
                old(self).stream_of(t)@.len() <= old(self).buffer_capacity ==> final(self).stream_of(
                    t,
                )@.len() <= final(self).buffer_capacity || final(self).stream_of(t)@.len() == 1,
            match aws_stream(data.exchange, data.channel@) {
                None => upload is None && *final(self) == *old(self),
                Some(s) => {
                    let record = (levels_text(data.data.spec_asks()), now);
                    &&& forall|t: Stream| t != s ==> final(self).stream_of(t) == old(self).stream_of(t)
                    &&& if old(self).stream_of(s)@.len() >= old(self).buffer_capacity {
                        &&& upload matches Some(u) && u.batch@.map_values(|d: AWSData| record_view(d))
                            == old(self).records(s) && u.url@ == "https://example.com/upload"@
                            && u.content_type@ == "application/json"@
                        &&& final(self).records(s) == seq![record]
                        &&& final(self).stream_of(s)@.len() == 1
                    } else {
                        &&& upload is None
                        &&& final(self).records(s) == old(self).records(s).push(record)
                        &&& final(self).stream_of(s)@.len() == old(self).stream_of(s)@.len() + 1
                    }
                },
            },
    {
        let market = same_text(data.channel.as_str(), "Market");
        let trade = same_text(data.channel.as_str(), "Trade");
        let stream = if market {
            match data.exchange {
                ExchangeEnum::Binance => Stream::BinanceMarket,
                ExchangeEnum::Huobi => Stream::HuobiMarket,
            }
        } else if trade {
            match data.exchange {
                ExchangeEnum::Binance => Stream::BinanceTrade,
                ExchangeEnum::Huobi => Stream::HuobiTrade,
            }
        } else {
            return None;
        };
        let record = AWSData { json: levels_or_empty(data.data.asks()), timestamp: now };
        let ghost view = (levels_text(data.data.spec_asks()), now);
        let capacity = self.buffer_capacity;
        let buffer = match stream {
            Stream::BinanceMarket => &mut self.buffers.binance_market,
            Stream::BinanceTrade => &mut self.buffers.binance_trade,
            Stream::HuobiMarket => &mut self.buffers.huobi_market,
            Stream::HuobiTrade => &mut self.buffers.huobi_trade,
        };
        let ghost before = buffer@.map_values(|d: AWSData| record_view(d));
        if buffer.len() >= capacity {
            let mut batch: Vec<AWSData> = Vec::new();
            std::mem::swap(&mut batch, buffer);
            buffer.push(record);
            assert(buffer@.map_values(|d: AWSData| record_view(d)) =~= seq![view]);
            assert(batch@.map_values(|d: AWSData| record_view(d)) =~= before);
            Some(Upload {
                url: owned("https://example.com/upload"),
                content_type: owned("application/json"),
                batch,
            })
        } else {
            buffer.push(record);
            assert(buffer@.map_values(|d: AWSData| record_view(d)) =~= before.push(view));
            None
        }
    }
}

} // verus!
