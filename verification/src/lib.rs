//! The request handling of a Prometheus exporter for
//! [prometrics](https://docs.rs/prometrics/).
//!
//! An exporter answers `GET /metrics` with the metrics of a gatherer in the
//! Prometheus text format, and everything else with an empty 404. This crate
//! holds that decision, verified with Verus: [`route`] reads the route table,
//! [`metrics_page`] frames a scraped text, and [`handle`] puts the two
//! together. It opens no socket, starts no thread and takes no lock: a server
//! hands each request to [`handle`] as a [`Request`], with the scrape of its
//! gatherer as a closure, and sends the [`Response`] it gets back.
//!
//! ```no_run
//! use prometrics_exporter::{handle, Failure, Request};
//!
//! let request = Request { method: "GET", raw_url: "/metrics" };
//! let scrape = || {
//!     let families = match prometrics::default_gatherer().lock() {
//!         Ok(mut gatherer) => gatherer.gather(),
//!         Err(_) => return Err(Failure::RegistryPoisoned),
//!     };
//!     Ok(families.to_text())
//! };
//! let response = handle(&request, scrape).unwrap();
//! assert_eq!(response.status_code, 200);
//! ```

pub mod handler;
pub mod response;
pub mod route;
pub mod text;

pub use handler::{handle, metrics_page, Failure};
pub use response::Response;
pub use route::{has_path, route, Request, Route};
