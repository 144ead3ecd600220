//! Rules for the DeepStream `nvdsudpsrc` / `nvdsudpsink` elements.

pub mod packetization;
pub mod ts_refclk;
