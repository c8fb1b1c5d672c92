//! Binance futures network, symbols and streams, and the stream URLs they
//! make.

use vstd::prelude::*;
use vstd::string::StringExecFns;
use crate::text::{join, join_spec, lowercase, to_lowercase, text_eq};

verus! {

#[derive(Clone, Debug)]
pub struct BinanceConfig {
    pub net: BinanceNet,
    pub symbols: Vec<SymbolConfig>,
    pub streams: Vec<StreamConfig>,
}

#[derive(Clone, Copy, Debug, PartialEq, Eq, Structural)]
pub enum BinanceNet {
    Testnet,
    Mainnet,
}

#[derive(Clone, Copy, Debug, PartialEq, Eq, Structural)]
pub enum StreamType {
    Public,
    Market,
    Private,
}

#[derive(Clone, Debug)]
pub struct SymbolConfig {
    pub symbol: String,
    pub enabled: bool,
}

#[derive(Clone, Debug)]
pub struct StreamConfig {
    pub name: String,
    pub stream_type: StreamType,
    pub suffix: String,
    pub enabled: bool,
}

impl BinanceNet {
    /// The network a `BINANCE_NET` setting selects: the test network for
    /// exactly `testnet`, the main network for anything else or no setting.
    pub fn from_setting(value: Option<&str>) -> (r: BinanceNet)
        ensures
            r == (if value matches Some(v) && v@ == "testnet"@ { BinanceNet::Testnet } else { BinanceNet::Mainnet }),
    {
        match value {
            Some(v) => if text_eq(v, "testnet") {
                BinanceNet::Testnet
            } else {
                BinanceNet::Mainnet
            },
            None => BinanceNet::Mainnet,
        }
    }
}

/// The websocket host of a network.
pub open spec fn base_url_spec(net: BinanceNet) -> Seq<char> {
    match net {
        BinanceNet::Mainnet => "wss://fstream.binance.com"@,
        BinanceNet::Testnet => "wss://stream.binancefuture.com"@,
    }
}

/// The stream names of one symbol: `symbol@suffix`, the symbol in lower
/// case, for each enabled stream of type `ty`, in stream order.
pub open spec fn symbol_streams(symbol: Seq<char>, streams: Seq<StreamConfig>, ty: StreamType) -> Seq<Seq<char>>
    decreases streams.len(),
{
    if streams.len() == 0 {
        Seq::empty()
    } else {
        let prev = symbol_streams(symbol, streams.drop_last(), ty);
        let st = streams.last();
        if st.enabled && st.stream_type == ty {
            prev.push(lowercase(symbol) + "@"@ + st.suffix@)
        } else {
            prev
        }
    }
}

/// Law: the main network streams from `wss://fstream.binance.com`, the
/// test network from `wss://stream.binancefuture.com`.
pub proof fn law_network_hosts()
    ensures
        base_url_spec(BinanceNet::Mainnet) == "wss://fstream.binance.com"@,
        base_url_spec(BinanceNet::Testnet) == "wss://stream.binancefuture.com"@,
{
}

/// Law: a symbol's stream names are, for each enabled stream of the type
/// and in stream order, the symbol in lower case, `@` and the stream's
/// suffix; disabled streams and streams of other types give none.
pub proof fn law_symbol_stream_names(symbol: Seq<char>, streams: Seq<StreamConfig>, ty: StreamType)
    ensures
        symbol_streams(symbol, streams, ty) == streams.filter(|st: StreamConfig| st.enabled && st.stream_type == ty)
            .map_values(|st: StreamConfig| lowercase(symbol) + "@"@ + st.suffix@),
    decreases streams.len(),
{
    reveal_with_fuel(Seq::filter, 1);
    if streams.len() > 0 {
        law_symbol_stream_names(symbol, streams.drop_last(), ty);
        let f = streams.drop_last().filter(|st: StreamConfig| st.enabled && st.stream_type == ty);
        let st = streams.last();
        if st.enabled && st.stream_type == ty {
            assert(f.push(st).map_values(|st: StreamConfig| lowercase(symbol) + "@"@ + st.suffix@)
                =~= f.map_values(|st: StreamConfig| lowercase(symbol) + "@"@ + st.suffix@).push(lowercase(symbol) + "@"@ + st.suffix@));
        }
    }
}

/// The stream names of all enabled symbols, symbol by symbol.
pub open spec fn streams_spec(symbols: Seq<SymbolConfig>, streams: Seq<StreamConfig>, ty: StreamType) -> Seq<Seq<char>>
    decreases symbols.len(),
{
    if symbols.len() == 0 {
        Seq::empty()
    } else {
        let prev = streams_spec(symbols.drop_last(), streams, ty);
        let s = symbols.last();
        if s.enabled {
            prev + symbol_streams(s.symbol@, streams, ty)
        } else {
            prev
        }
    }
}

/// The combined-stream URL for `path`: host, path, `?streams=` and the
/// stream names joined by `/`.
pub open spec fn stream_url_spec(cfg: BinanceConfig, path: Seq<char>, ty: StreamType) -> Seq<char> {
    base_url_spec(cfg.net) + path + join_spec(streams_spec(cfg.symbols@, cfg.streams@, ty), "/"@)
}

impl BinanceConfig {
    /// The combined-stream URL of the enabled public streams.
    pub fn public_ws_url(&self) -> (r: String)
        ensures
            r@ == stream_url_spec(*self, "/public/stream?streams="@, StreamType::Public),
    {
        let streams = self.build_streams(StreamType::Public);
        let mut url = self.base_url().to_string();
        url.append("/public/stream?streams=");
        let joined = join(&streams, "/");
        url.append(joined.as_str());
        url
    }

    /// The combined-stream URL of the enabled market streams.
    pub fn market_ws_url(&self) -> (r: String)
        ensures
            r@ == stream_url_spec(*self, "/market/stream?streams="@, StreamType::Market),
    {
        let streams = self.build_streams(StreamType::Market);
        let mut url = self.base_url().to_string();
        url.append("/market/stream?streams=");
        let joined = join(&streams, "/");
        url.append(joined.as_str());
        url
    }

    fn base_url(&self) -> (r: &'static str)
        ensures
            r@ == base_url_spec(self.net),
    {
        match self.net {
            BinanceNet::Mainnet => "wss://fstream.binance.com",
            BinanceNet::Testnet => "wss://stream.binancefuture.com",
        }
    }

    fn build_streams(&self, stream_type: StreamType) -> (r: Vec<String>)
        ensures
            r@.map_values(|x: String| x@) == streams_spec(self.symbols@, self.streams@, stream_type),
    {
        let mut out: Vec<String> = Vec::new();
        let ns = self.symbols.len();
        let nt = self.streams.len();
        let mut i: usize = 0;
        proof {
            assert(self.symbols@.take(0) =~= Seq::<SymbolConfig>::empty());
            assert(out@.map_values(|x: String| x@) =~= Seq::<Seq<char>>::empty());
        }
        while i < ns
            invariant
                ns == self.symbols@.len(),
                nt == self.streams@.len(),
                i <= ns,
                out@.map_values(|x: String| x@) == streams_spec(self.symbols@.take(i as int), self.streams@, stream_type),
            decreases ns - i,
        {
            proof {
                assert(self.symbols@.take(i + 1).drop_last() =~= self.symbols@.take(i as int));
            }
            let s = &self.symbols[i];
            if s.enabled {
                let lower = to_lowercase(s.symbol.as_str());
                let ghost base = out@.map_values(|x: String| x@);
                let mut j: usize = 0;
                proof {
                    assert(self.streams@.take(0) =~= Seq::<StreamConfig>::empty());
                    assert(base + symbol_streams(s.symbol@, self.streams@.take(0), stream_type) =~= base);
                }
                while j < nt
                    invariant
                        nt == self.streams@.len(),
                        j <= nt,
                        lower@ == lowercase(s.symbol@),
                        out@.map_values(|x: String| x@) == base + symbol_streams(s.symbol@, self.streams@.take(j as int), stream_type),
                    decreases nt - j,
                {
                    proof {
                        assert(self.streams@.take(j + 1).drop_last() =~= self.streams@.take(j as int));
                    }
                    let st = &self.streams[j];
                    if st.enabled && st.stream_type == stream_type {
                        let mut name = lower.clone();
                        name.append("@");
                        name.append(st.suffix.as_str());
                        let ghost prev = out@.map_values(|x: String| x@);
                        out.push(name);
                        proof {
                            assert(out@.map_values(|x: String| x@) =~= prev.push(name@));
                        }
                    }
                    j = j + 1;
                }
                proof {
                    assert(self.streams@.take(nt as int) =~= self.streams@);
                }
            }
            i = i + 1;
        }
        proof {
            assert(self.symbols@.take(ns as int) =~= self.symbols@);
        }
        out
    }
}

} // verus!
