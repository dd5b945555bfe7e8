//! Verified core of a Pump.fun / PumpSwap copy-trading bot that follows leader wallets
//! through a Jito shredstream feed and submits mirrored buys through Jito block engines.
pub mod address;
pub mod types;
pub mod sdk;
pub mod tx;
pub mod pumpswap;
pub mod layout;
pub mod pricing;
pub mod seeds;
pub mod budget;
pub mod pumpbuy;
pub mod amm;
pub mod mirror;
pub mod text;
pub mod jito;
pub mod trade;
pub mod scan;
pub mod monitor;
pub mod wsol;
pub mod blockhash;
pub mod wallet;
pub mod config;
pub mod dispatch;
