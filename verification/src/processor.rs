//! Configuration of a record-text link processor: which kinds of links
//! found in a record's text are acted on.
//!
//! The processing itself walks the record store and the outside world;
//! here lives only its configuration, a builder over four switches.

use vstd::prelude::*;

verus! {

/// Which kinds of links a processing pass acts on.
///
/// There is no constructor; start from `LinkProcessor::default()`, which
/// processes internal and external links, creates no missing internal
/// targets, and leaves file references alone.
#[derive(Debug, PartialEq, Eq, Clone, Copy)]
pub struct LinkProcessor {
    pub process_internal_links: bool,
    pub create_internal_targets: bool,
    pub process_external_links: bool,
    pub process_refs: bool,
}

impl LinkProcessor {
    /// Switches processing of internal links (record to record) on or
    /// off.
    pub fn process_internal_links(self, b: bool) -> (r: Self)
        ensures
            r == (LinkProcessor { process_internal_links: b, ..self }),
    {
        LinkProcessor { process_internal_links: b, ..self }
    }

    /// Switches creation of missing internal link targets on or off.
    pub fn create_internal_targets(self, b: bool) -> (r: Self)
        ensures
            r == (LinkProcessor { create_internal_targets: b, ..self }),
    {
        LinkProcessor { create_internal_targets: b, ..self }
    }

    /// Switches processing of external links (record to URL) on or off.
    pub fn process_external_links(self, b: bool) -> (r: Self)
        ensures
            r == (LinkProcessor { process_external_links: b, ..self }),
    {
        LinkProcessor { process_external_links: b, ..self }
    }

    /// Switches processing of file references on or off.
    pub fn process_refs(self, b: bool) -> (r: Self)
        ensures
            r == (LinkProcessor { process_refs: b, ..self }),
    {
        LinkProcessor { process_refs: b, ..self }
    }
}

impl Default for LinkProcessor {
    /// The default configuration: internal and external links are
    /// processed, missing targets are not created, references are left
    /// alone.
    fn default() -> (r: Self)
        ensures
            r == (LinkProcessor {
                process_internal_links: true,
                create_internal_targets: false,
                process_external_links: true,
                process_refs: false,
            }),
    {
        LinkProcessor {
            process_internal_links: true,
            create_internal_targets: false,
            process_external_links: true,
            process_refs: false,
        }
    }
}

} // verus!
