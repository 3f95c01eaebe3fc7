//! Colour composites derived from multi-band satellite rasters, and the
//! decisions of the cache that serves them.
//!
//! A product is an archive that holds twelve raster bands. `archive` and
//! `bands` find the entries of the bands and read their payloads; `sat_data`
//! holds the decoded rasters; `filters` derives the four composites from
//! them, with the levels of the water index from `index`; `contrast`
//! multiplies the samples of an image. `fetch` decides, step by step, how a
//! request for one composite is served from the blob store or from the
//! provider, `download` how redirects are followed, `encoder` at which
//! quality an image is encoded to fit a size budget. `cache` states what
//! these decisions amount to. The remaining modules read and write what
//! travels between the service and its surroundings: keys, queries, JSON
//! bodies, compressed text.
//!
//! Nothing here performs input or output. The caller carries out the actions
//! that the library decides on and hands back what happened.

pub mod archive;
pub mod authenticate;
pub mod bands;
pub mod cache;
pub mod contrast;
pub mod download;
pub mod encoder;
pub mod errors;
pub mod fetch;
pub mod filters;
pub mod index;
pub mod json;
pub mod keys;
pub mod raster;
pub mod request;
pub mod sat_data;
pub mod search;
pub mod search_result;
pub mod text;
pub mod transport;
pub mod variant;
