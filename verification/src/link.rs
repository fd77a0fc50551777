use vstd::prelude::*;

use crate::generation::RequestGenerationId;
use crate::resolve::join_of;
use crate::resolve::resolve_url;
use crate::tokens::contains_token;
use crate::tokens::seq_ieq;
use crate::tokens::spec_is_favicon;
use crate::tokens::spec_string_is_stylesheet;

verus! {

/// The facts about the owning document that the coordinator's
/// decisions depend on, handed in as plain values by the host.
pub struct DocumentContext {
    /// The document's base URL, against which `href` is resolved.
    pub base_url: String,
    /// Whether the document has a browsing context; without one no
    /// stylesheet load is started.
    pub has_browsing_context: bool,
    /// Whether the owning browsing context is top-level; icon
    /// notifications are sent only then.
    pub is_top_level: bool,
}

/// Handle for a loaded stylesheet resource. The document's registry
/// holds the canonical resource; the element keeps this key to it.
#[derive(Clone, Copy, PartialEq, Eq, Structural, Debug)]
pub struct StylesheetHandle(pub u64);

/// The lazily built, cached presentation-layer wrapper over the
/// currently installed stylesheet.
#[derive(Clone, Copy, PartialEq, Eq, Structural, Debug)]
pub struct CssomStylesheet {
    pub sheet: StylesheetHandle,
    pub origin_clean: bool,
}

/// CORS mode extracted from the `crossorigin` attribute.
#[derive(Clone, Copy, PartialEq, Eq, Structural, Debug)]
pub enum CorsSettings {
    Anonymous,
    UseCredentials,
}

/// Referrer policy derived from the `rel` attribute.
#[derive(Clone, Copy, PartialEq, Eq, Structural, Debug)]
pub enum ReferrerPolicy {
    NoReferrer,
}

/// How the element came to exist; a parser-created element takes part
/// in the document's load-blocking protocol.
#[derive(Clone, Copy, PartialEq, Eq, Structural, Debug)]
pub enum ElementCreator {
    ParserCreated,
    ScriptCreated,
}

impl ElementCreator {
    pub fn is_parser_created(self) -> (r: bool)
        ensures
            r == (self is ParserCreated),
    {
        match self {
            ElementCreator::ParserCreated => true,
            ElementCreator::ScriptCreated => false,
        }
    }
}

/// The attributes this coordinator reads.
#[derive(Clone, Copy, PartialEq, Eq, Structural, Debug)]
pub enum LinkAttribute {
    Rel,
    Href,
    Sizes,
    Media,
    Integrity,
    CrossOrigin,
}

/// The request the host must forward to the external resource loader.
#[derive(Clone, PartialEq, Debug)]
pub struct LoaderRequest {
    /// The resolved URL to fetch.
    pub url: String,
    /// The raw media-query text, for the external CSS parser.
    pub media_query: String,
    /// CORS mode for the fetch.
    pub cors_setting: Option<CorsSettings>,
    /// Raw integrity metadata for the fetch.
    pub integrity_metadata: String,
    /// The generation the request belongs to; every completion the
    /// loader reports for it must echo this id back.
    pub generation: RequestGenerationId,
}

/// What an attribute mutation or tree insertion asks the host to do.
#[derive(Clone, PartialEq, Debug)]
pub enum ProtocolAction {
    /// No external call.
    Nothing,
    /// Forward this request to the external stylesheet loader.
    StartStylesheetLoad(LoaderRequest),
    /// Send the resolved icon URL over the embedder channel.
    NotifyFavicon(String),
}

/// What one sub-load completion asks the host to do.
#[derive(Clone, Copy, PartialEq, Eq, Debug)]
pub struct SubLoadOutcome {
    /// A previously installed resource that must now be removed from
    /// the document's stylesheet registry (the completion's resource,
    /// if it was installed, has to be added right after).
    pub deregistered: Option<StylesheetHandle>,
    /// Whether the completion's resource was installed into the slot.
    pub installed: bool,
    /// The aggregate batch outcome, reported exactly once, on the last
    /// outstanding completion: `true` means some sub-load failed.
    pub aggregate_report: Option<bool>,
}

/// The attribute fields of `a` and `b` agree.
pub open spec fn attrs_eq(a: HTMLLinkElement, b: HTMLLinkElement) -> bool {
    &&& a.rel == b.rel
    &&& a.href == b.href
    &&& a.sizes == b.sizes
    &&& a.media == b.media
    &&& a.integrity == b.integrity
    &&& a.cross_origin == b.cross_origin
}

/// The pending-load tracker fields of `a` and `b` agree.
pub open spec fn tracker_eq(a: HTMLLinkElement, b: HTMLLinkElement) -> bool {
    &&& a.pending_loads == b.pending_loads
    &&& a.any_failed_load == b.any_failed_load
}

/// The resource-slot fields of `a` and `b` agree.
pub open spec fn slot_eq(a: HTMLLinkElement, b: HTMLLinkElement) -> bool {
    &&& a.stylesheet == b.stylesheet
    &&& a.cssom_stylesheet == b.cssom_stylesheet
}

/// The CORS mode the `crossorigin` attribute denotes: absent means no
/// CORS; `use-credentials` (matched case-insensitively) means
/// credentials are sent; any other value means anonymous.
pub open spec fn spec_cors_setting(cross_origin: Option<Seq<char>>) -> Option<CorsSettings> {
    match cross_origin {
        Some(v) => if seq_ieq(v, "use-credentials"@) {
            Some(CorsSettings::UseCredentials)
        } else {
            Some(CorsSettings::Anonymous)
        },
        None => None,
    }
}

/// The `rel` attribute holds the exact token `noreferrer`.
pub open spec fn spec_rel_has_noreferrer(rel: Option<Seq<char>>) -> bool {
    match rel {
        Some(v) => contains_token(v, "noreferrer"@, false),
        None => false,
    }
}

/// The `rel` attribute holds the token `alternate`, matched
/// case-insensitively.
pub open spec fn spec_is_alternate(rel: Option<Seq<char>>) -> bool {
    match rel {
        Some(v) => contains_token(v, "alternate"@, true),
        None => false,
    }
}

/// Mutating the named attribute to `value` asks for the
/// stylesheet-load protocol: the element sits in the tree, the
/// mutation is no removal, it is `href` that changed, and `rel` names
/// a stylesheet. `s1` is the state with the mutation already stored.
pub open spec fn mutation_requests_stylesheet(
    s1: HTMLLinkElement,
    name: LinkAttribute,
    value: Option<String>,
) -> bool {
    &&& s1.in_document_tree
    &&& value is Some
    &&& name is Href
    &&& spec_string_is_stylesheet(s1.rel.deep_view())
}

/// Mutating the named attribute to `value` asks for the
/// icon-notification protocol: the element sits in the tree, the
/// mutation is no removal, `rel` names an icon, and either `href`
/// changed (and `rel` is no stylesheet) or `sizes` changed while an
/// `href` is present.
pub open spec fn mutation_requests_favicon(
    s1: HTMLLinkElement,
    name: LinkAttribute,
    value: Option<String>,
) -> bool {
    &&& s1.in_document_tree
    &&& value is Some
    &&& spec_is_favicon(s1.rel.deep_view())
    &&& ((name is Href && !spec_string_is_stylesheet(s1.rel.deep_view())) || (name is Sizes
        && s1.href is Some))
}

/// Entering the document tree asks for the stylesheet-load protocol:
/// an `href` is present and `rel` names a stylesheet.
pub open spec fn bind_requests_stylesheet(s: HTMLLinkElement, tree_in_doc: bool) -> bool {
    &&& tree_in_doc
    &&& s.href is Some
    &&& spec_string_is_stylesheet(s.rel.deep_view())
}

/// Entering the document tree asks for the icon-notification protocol:
/// an `href` is present and `rel` names an icon but no stylesheet.
pub open spec fn bind_requests_favicon(s: HTMLLinkElement, tree_in_doc: bool) -> bool {
    &&& tree_in_doc
    &&& s.href is Some
    &&& !spec_string_is_stylesheet(s.rel.deep_view())
    &&& spec_is_favicon(s.rel.deep_view())
}

/// `req` is exactly the loader request that the state `s` (with its
/// current attribute set, before the generation bump) gives rise to.
pub open spec fn loader_request_for(
    s: HTMLLinkElement,
    ctx: DocumentContext,
    req: LoaderRequest,
) -> bool {
    &&& (s.href matches Some(h) ==> Some(req.url@) == join_of(ctx.base_url@, h@))
    &&& (s.media matches Some(m) ==> req.media_query@ == m@)
    &&& (s.media is None ==> req.media_query@.len() == 0)
    &&& req.cors_setting == spec_cors_setting(s.cross_origin.deep_view())
    &&& (s.integrity matches Some(v) ==> req.integrity_metadata@ == v@)
    &&& (s.integrity is None ==> req.integrity_metadata@.len() == 0)
    &&& req.generation.0 == s.request_generation_id.0 + 1
}

/// Per-element coordinator for link resource loads: decides when a
/// stylesheet load or icon notification is (re)run, which asynchronous
/// completion is authoritative, and how a batch outcome is aggregated.
pub struct HTMLLinkElement {
    pub rel: Option<String>,
    pub href: Option<String>,
    pub sizes: Option<String>,
    pub media: Option<String>,
    pub integrity: Option<String>,
    pub cross_origin: Option<String>,
    /// Whether the element currently sits in the document tree.
    pub in_document_tree: bool,
    /// Fixed at construction; exposed for the document's load-blocking
    /// protocol.
    pub parser_inserted: bool,
    /// The currently authoritative loaded stylesheet, if any.
    pub stylesheet: Option<StylesheetHandle>,
    /// Cached presentation wrapper over `stylesheet`.
    pub cssom_stylesheet: Option<CssomStylesheet>,
    /// Sub-loads outstanding for the current logical request.
    pub pending_loads: u32,
    /// Whether any sub-load of the current batch failed.
    pub any_failed_load: bool,
    /// Identifies the current load request; stale completions carry an
    /// older value and are discarded at install time.
    pub request_generation_id: RequestGenerationId,
}

impl HTMLLinkElement {
    /// Well-formedness: once a batch has been reported (no sub-load
    /// outstanding) no failure is left accumulated, and the cached
    /// presentation wrapper always belongs to the installed resource.
    pub open spec fn wf(self) -> bool {
        &&& (self.pending_loads == 0 ==> !self.any_failed_load)
        &&& (self.cssom_stylesheet matches Some(c) ==> self.stylesheet == Some(c.sheet))
    }

    /// The attribute set of `self` with the named attribute set to
    /// `value` (`None` meaning removed).
    pub open spec fn with_attr(
        self,
        name: LinkAttribute,
        value: Option<String>,
    ) -> HTMLLinkElement {
        match name {
            LinkAttribute::Rel => HTMLLinkElement { rel: value, ..self },
            LinkAttribute::Href => HTMLLinkElement { href: value, ..self },
            LinkAttribute::Sizes => HTMLLinkElement { sizes: value, ..self },
            LinkAttribute::Media => HTMLLinkElement { media: value, ..self },
            LinkAttribute::Integrity => HTMLLinkElement { integrity: value, ..self },
            LinkAttribute::CrossOrigin => HTMLLinkElement { cross_origin: value, ..self },
        }
    }

    /// The stylesheet-load protocol, run on this state, reaches the
    /// loader: there is a browsing context and a non-empty, resolvable
    /// `href`.
    pub open spec fn stylesheet_load_fires(self, ctx: DocumentContext) -> bool {
        &&& ctx.has_browsing_context
        &&& self.href matches Some(h) && h@.len() > 0 && join_of(ctx.base_url@, h@) is Some
    }

    /// The icon-notification protocol, run on this state, reaches the
    /// embedder: `href` resolves and the browsing context is top-level.
    pub open spec fn favicon_fires(self, ctx: DocumentContext) -> bool {
        &&& self.href matches Some(h) && join_of(ctx.base_url@, h@) is Some
        &&& ctx.is_top_level
    }

    fn new_inherited(creator: ElementCreator) -> (e: HTMLLinkElement)
        ensures
            e == (HTMLLinkElement {
                rel: None,
                href: None,
                sizes: None,
                media: None,
                integrity: None,
                cross_origin: None,
                in_document_tree: false,
                parser_inserted: creator is ParserCreated,
                stylesheet: None,
                cssom_stylesheet: None,
                pending_loads: 0,
                any_failed_load: false,
                request_generation_id: RequestGenerationId(0),
            }),
    {
        HTMLLinkElement {
            rel: None,
            href: None,
            sizes: None,
            media: None,
            integrity: None,
            cross_origin: None,
            in_document_tree: false,
            parser_inserted: creator.is_parser_created(),
            stylesheet: None,
            cssom_stylesheet: None,
            pending_loads: 0,
            any_failed_load: false,
            request_generation_id: RequestGenerationId(0),
        }
    }

    /// A fresh element: no attributes, not in the tree, no resource,
    /// no outstanding sub-load, generation zero.
    pub fn new(creator: ElementCreator) -> (e: HTMLLinkElement)
        ensures
            e.rel is None && e.href is None && e.sizes is None,
            e.media is None && e.integrity is None && e.cross_origin is None,
            !e.in_document_tree,
            e.parser_inserted == (creator is ParserCreated),
            e.stylesheet is None && e.cssom_stylesheet is None,
            e.pending_loads == 0 && !e.any_failed_load,
            e.request_generation_id == (RequestGenerationId(0)),
            e.wf(),
    {
        HTMLLinkElement::new_inherited(creator)
    }

    pub fn get_request_generation_id(&self) -> (r: RequestGenerationId)
        ensures
            r == self.request_generation_id,
    {
        self.request_generation_id
    }

    /// Unconditionally swaps the resource slot: stores `s`, clears the
    /// cached presentation wrapper, and returns the previously
    /// installed resource, which the caller must deregister from the
    /// document's stylesheet registry before registering `s`.
    pub fn set_stylesheet(&mut self, s: StylesheetHandle) -> (removed: Option<StylesheetHandle>)
        requires
            old(self).wf(),
        ensures
            final(self).wf(),
            removed == old(self).stylesheet,
            final(self).stylesheet == Some(s),
            final(self).cssom_stylesheet is None,
            attrs_eq(*final(self), *old(self)),
            tracker_eq(*final(self), *old(self)),
            final(self).in_document_tree == old(self).in_document_tree,
            final(self).parser_inserted == old(self).parser_inserted,
            final(self).request_generation_id == old(self).request_generation_id,
    {
        let removed = self.stylesheet;
        self.stylesheet = Some(s);
        self.cssom_stylesheet = None;
        removed
    }

    pub fn get_stylesheet(&self) -> (r: Option<StylesheetHandle>)
        ensures
            r == self.stylesheet,
    {
        self.stylesheet
    }

    /// The presentation wrapper over the installed resource: none
    /// without a resource; otherwise the cached wrapper if one exists,
    /// else a freshly built one that is cached for later calls.
    pub fn get_cssom_stylesheet(&mut self) -> (r: Option<CssomStylesheet>)
        requires
            old(self).wf(),
        ensures
            final(self).wf(),
            attrs_eq(*final(self), *old(self)),
            tracker_eq(*final(self), *old(self)),
            final(self).in_document_tree == old(self).in_document_tree,
            final(self).parser_inserted == old(self).parser_inserted,
            final(self).request_generation_id == old(self).request_generation_id,
            final(self).stylesheet == old(self).stylesheet,
            final(self).cssom_stylesheet == if old(self).stylesheet is None {
                old(self).cssom_stylesheet
            } else {
                r
            },
            r is Some <==> old(self).stylesheet is Some,
            (old(self).cssom_stylesheet is Some ==> r == old(self).cssom_stylesheet),
            (old(self).stylesheet matches Some(sh) ==> (old(self).cssom_stylesheet is None ==> r
                == Some(CssomStylesheet { sheet: sh, origin_clean: true }))),
    {
        match self.stylesheet {
            Some(sh) => match self.cssom_stylesheet {
                Some(c) => Some(c),
                None => {
                    let c = CssomStylesheet { sheet: sh, origin_clean: true };
                    self.cssom_stylesheet = Some(c);
                    Some(c)
                },
            },
            None => None,
        }
    }

    /// Marks the presentation wrapper's origin-cleanliness, building
    /// the wrapper first if a resource is installed.
    pub fn set_origin_clean(&mut self, origin_clean: bool)
        requires
            old(self).wf(),
        ensures
            final(self).wf(),
            attrs_eq(*final(self), *old(self)),
            tracker_eq(*final(self), *old(self)),
            final(self).in_document_tree == old(self).in_document_tree,
            final(self).parser_inserted == old(self).parser_inserted,
            final(self).request_generation_id == old(self).request_generation_id,
            final(self).stylesheet == old(self).stylesheet,
            (old(self).stylesheet matches Some(sh) ==> final(self).cssom_stylesheet == Some(
                CssomStylesheet { sheet: sh, origin_clean },
            )),
            (old(self).stylesheet is None ==> final(self).cssom_stylesheet == old(self).cssom_stylesheet),
    {
        let wrapper = self.get_cssom_stylesheet();
        match wrapper {
            Some(c) => {
                self.cssom_stylesheet = Some(CssomStylesheet { sheet: c.sheet, origin_clean });
            },
            None => {},
        }
    }

    /// The `rel` attribute holds the token `alternate`, matched
    /// case-insensitively.
    pub fn is_alternate(&self) -> (r: bool)
        ensures
            r == spec_is_alternate(self.rel.deep_view()),
    {
        proof {
            reveal_strlit("alternate");
        }
        let token = crate::tokens::str_chars("alternate");
        crate::tokens::value_contains_token(&self.rel, &token, true)
    }

    /// The CORS mode of the `crossorigin` attribute.
    pub fn cors_setting(&self) -> (r: Option<CorsSettings>)
        ensures
            r == spec_cors_setting(self.cross_origin.deep_view()),
    {
        match &self.cross_origin {
            Some(v) => {
                proof {
                    reveal_strlit("use-credentials");
                }
                let token = crate::tokens::str_chars("use-credentials");
                if crate::tokens::str_ieq(v.as_str(), &token) {
                    Some(CorsSettings::UseCredentials)
                } else {
                    Some(CorsSettings::Anonymous)
                }
            },
            None => None,
        }
    }

    pub fn parser_inserted(&self) -> (r: bool)
        ensures
            r == self.parser_inserted,
    {
        self.parser_inserted
    }

    /// `no-referrer` exactly when `rel` holds the exact token
    /// `noreferrer`; otherwise unspecified, deferring to the loader's
    /// default.
    pub fn referrer_policy(&self) -> (r: Option<ReferrerPolicy>)
        ensures
            r == if spec_rel_has_noreferrer(self.rel.deep_view()) {
                Some(ReferrerPolicy::NoReferrer)
            } else {
                Option::<ReferrerPolicy>::None
            },
    {
        proof {
            reveal_strlit("noreferrer");
        }
        let token = crate::tokens::str_chars("noreferrer");
        if crate::tokens::value_contains_token(&self.rel, &token, false) {
            Some(ReferrerPolicy::NoReferrer)
        } else {
            None
        }
    }

    /// One sub-load of the current logical request was started by the
    /// external loader.
    pub fn increment_pending_loads_count(&mut self)
        requires
            old(self).wf(),
            old(self).pending_loads < u32::MAX,
        ensures
            final(self).wf(),
            final(self).pending_loads == old(self).pending_loads + 1,
            final(self).any_failed_load == old(self).any_failed_load,
            attrs_eq(*final(self), *old(self)),
            slot_eq(*final(self), *old(self)),
            final(self).in_document_tree == old(self).in_document_tree,
            final(self).parser_inserted == old(self).parser_inserted,
            final(self).request_generation_id == old(self).request_generation_id,
    {
        self.pending_loads = self.pending_loads + 1;
    }

    /// One sub-load finished. Decrements the outstanding count and
    /// accumulates failure; on the last outstanding sub-load returns
    /// the batch's aggregate outcome (`true` meaning some sub-load
    /// failed) exactly once and resets the failure flag.
    ///
    /// A finish without a matching start is a loader bug; such a call
    /// is ruled out rather than tolerated.
    pub fn load_finished(&mut self, succeeded: bool) -> (r: Option<bool>)
        requires
            old(self).wf(),
            old(self).pending_loads > 0,
        ensures
            final(self).wf(),
            final(self).pending_loads == old(self).pending_loads - 1,
            (old(self).pending_loads > 1 ==> r is None && final(self).any_failed_load == (old(self).any_failed_load || !succeeded)),
            (old(self).pending_loads == 1 ==> r == Some(old(self).any_failed_load || !succeeded)
                && !final(self).any_failed_load),
            (final(self).pending_loads, final(self).any_failed_load, r)
                == crate::laws::finish_step(
                old(self).pending_loads,
                old(self).any_failed_load,
                succeeded,
            ),
            attrs_eq(*final(self), *old(self)),
            slot_eq(*final(self), *old(self)),
            final(self).in_document_tree == old(self).in_document_tree,
            final(self).parser_inserted == old(self).parser_inserted,
            final(self).request_generation_id == old(self).request_generation_id,
    {
        if !succeeded {
            self.any_failed_load = true;
        }
        self.pending_loads = self.pending_loads - 1;
        if self.pending_loads != 0 {
            return None;
        }
        let any_failed = self.any_failed_load;
        self.any_failed_load = false;
        Some(any_failed)
    }

    /// The stylesheet-load protocol: with a browsing context and a
    /// non-empty `href` that resolves against the base URL, takes a
    /// fresh generation and produces the loader request; otherwise a
    /// silent no-op without a generation bump.
    pub fn handle_stylesheet_url(&mut self, ctx: &DocumentContext) -> (a: ProtocolAction)
        requires
            old(self).wf(),
            old(self).request_generation_id.0 < u32::MAX,
        ensures
            final(self).wf(),
            attrs_eq(*final(self), *old(self)),
            tracker_eq(*final(self), *old(self)),
            slot_eq(*final(self), *old(self)),
            final(self).in_document_tree == old(self).in_document_tree,
            final(self).parser_inserted == old(self).parser_inserted,
            old(self).stylesheet_load_fires(*ctx) <==> a is StartStylesheetLoad,
            (a matches ProtocolAction::StartStylesheetLoad(req) ==> loader_request_for(
                *old(self),
                *ctx,
                req,
            ) && final(self).request_generation_id == req.generation),
            (old(self).stylesheet_load_fires(*ctx) ==> final(self).request_generation_id.0 == old(self).request_generation_id.0 + 1),
            (!old(self).stylesheet_load_fires(*ctx) ==> a is Nothing && final(self).request_generation_id == old(self).request_generation_id),
    {
        if !ctx.has_browsing_context {
            return ProtocolAction::Nothing;
        }
        let href = match &self.href {
            Some(h) => h.clone(),
            None => {
                return ProtocolAction::Nothing;
            },
        };
        if href.as_str().unicode_len() == 0 {
            return ProtocolAction::Nothing;
        }
        let link_url = match resolve_url(ctx.base_url.as_str(), href.as_str()) {
            Some(u) => u,
            None => {
                return ProtocolAction::Nothing;
            },
        };
        let cors_setting = self.cors_setting();
        let media_query = match &self.media {
            Some(m) => m.clone(),
            None => String::new(),
        };
        let integrity_metadata = match &self.integrity {
            Some(v) => v.clone(),
            None => String::new(),
        };
        self.request_generation_id = self.request_generation_id.increment();
        ProtocolAction::StartStylesheetLoad(
            LoaderRequest {
                url: link_url,
                media_query,
                cors_setting,
                integrity_metadata,
                generation: self.request_generation_id,
            },
        )
    }

    /// The icon-notification protocol: resolves `href` against the
    /// base URL and, if the browsing context is top-level, yields the
    /// notification for the embedder channel. Generation-agnostic and
    /// fire-and-forget; the `sizes` value is accepted but not used to
    /// select among candidates.
    pub fn handle_favicon_url(&self, ctx: &DocumentContext) -> (notice: Option<String>)
        ensures
            (match self.href {
                Some(h) => {
                    &&& (notice is Some <==> self.favicon_fires(*ctx))
                    &&& (notice matches Some(u) ==> Some(u@) == join_of(ctx.base_url@, h@))
                },
                None => notice is None,
            }),
    {
        match &self.href {
            Some(h) => {
                match resolve_url(ctx.base_url.as_str(), h.as_str()) {
                    Some(u) => if ctx.is_top_level {
                        Some(u)
                    } else {
                        None
                    },
                    None => None,
                }
            },
            None => None,
        }
    }

    /// Offers a completed load's stylesheet to the resource slot. The
    /// resource is installed only while the element sits in the
    /// document tree and the completion's generation is still the
    /// current one; a superseded or post-removal completion is
    /// silently discarded without touching the slot. Returns the
    /// resource the caller must deregister from the document's
    /// stylesheet registry, if any.
    pub fn install_stylesheet(
        &mut self,
        s: StylesheetHandle,
        generation_at_request: RequestGenerationId,
    ) -> (removed: Option<StylesheetHandle>)
        requires
            old(self).wf(),
        ensures
            final(self).wf(),
            attrs_eq(*final(self), *old(self)),
            tracker_eq(*final(self), *old(self)),
            final(self).in_document_tree == old(self).in_document_tree,
            final(self).parser_inserted == old(self).parser_inserted,
            final(self).request_generation_id == old(self).request_generation_id,
            (old(self).in_document_tree && generation_at_request == old(self).request_generation_id) ==> {
                &&& removed == old(self).stylesheet
                &&& final(self).stylesheet == Some(s)
                &&& final(self).cssom_stylesheet is None
            },
            !(old(self).in_document_tree && generation_at_request == old(self).request_generation_id) ==> removed is None && slot_eq(*final(self), *old(self)),
    {
        if self.in_document_tree && generation_at_request == self.request_generation_id {
            self.set_stylesheet(s)
        } else {
            None
        }
    }

    /// The element left the document tree: releases the resource slot
    /// and the cached wrapper. Returns the resource the caller must
    /// deregister from the document's stylesheet registry, if any;
    /// completions still outstanding will from now on be discarded.
    pub fn unbind_from_tree(&mut self) -> (removed: Option<StylesheetHandle>)
        requires
            old(self).wf(),
        ensures
            final(self).wf(),
            removed == old(self).stylesheet,
            final(self).stylesheet is None,
            final(self).cssom_stylesheet is None,
            !final(self).in_document_tree,
            attrs_eq(*final(self), *old(self)),
            tracker_eq(*final(self), *old(self)),
            final(self).parser_inserted == old(self).parser_inserted,
            final(self).request_generation_id == old(self).request_generation_id,
    {
        self.in_document_tree = false;
        let removed = self.stylesheet;
        self.stylesheet = None;
        self.cssom_stylesheet = None;
        removed
    }

    /// The element was bound to a tree. When that tree is the document
    /// tree, re-evaluates the full attribute set: a stylesheet `rel`
    /// with an `href` starts the stylesheet-load protocol, an icon
    /// `rel` with an `href` runs the icon-notification protocol.
    pub fn bind_to_tree(&mut self, ctx: &DocumentContext, tree_in_doc: bool) -> (a: ProtocolAction)
        requires
            old(self).wf(),
            old(self).request_generation_id.0 < u32::MAX,
        ensures
            final(self).wf(),
            final(self).in_document_tree == tree_in_doc,
            attrs_eq(*final(self), *old(self)),
            tracker_eq(*final(self), *old(self)),
            slot_eq(*final(self), *old(self)),
            final(self).parser_inserted == old(self).parser_inserted,
            (bind_requests_stylesheet(*old(self), tree_in_doc) && old(self).stylesheet_load_fires(
                *ctx,
            )) <==> a is StartStylesheetLoad,
            (a matches ProtocolAction::StartStylesheetLoad(req) ==> loader_request_for(
                *old(self),
                *ctx,
                req,
            ) && final(self).request_generation_id == req.generation && final(self).request_generation_id.0 == old(self).request_generation_id.0 + 1),
            (a !is StartStylesheetLoad ==> final(self).request_generation_id == old(self).request_generation_id),
            (bind_requests_favicon(*old(self), tree_in_doc) && old(self).favicon_fires(*ctx))
                <==> a is NotifyFavicon,
            (a matches ProtocolAction::NotifyFavicon(u) ==> (old(self).href matches Some(h) && Some(
                u@,
            ) == join_of(ctx.base_url@, h@))),
    {
        self.in_document_tree = tree_in_doc;
        if !tree_in_doc {
            return ProtocolAction::Nothing;
        }
        if self.href.is_some() {
            if crate::tokens::string_is_stylesheet(&self.rel) {
                self.handle_stylesheet_url(ctx)
            } else if crate::tokens::is_favicon(&self.rel) {
                match self.handle_favicon_url(ctx) {
                    Some(u) => ProtocolAction::NotifyFavicon(u),
                    None => ProtocolAction::Nothing,
                }
            } else {
                ProtocolAction::Nothing
            }
        } else {
            ProtocolAction::Nothing
        }
    }

    /// An attribute changed: stores the new value (`None` meaning the
    /// attribute was removed) and re-evaluates the full attribute set.
    /// Removals and mutations outside the document tree run no
    /// protocol; an `href` change re-runs the protocol its `rel`
    /// selects; a `sizes` change re-notifies an icon.
    pub fn attribute_mutated(
        &mut self,
        ctx: &DocumentContext,
        name: LinkAttribute,
        value: Option<String>,
    ) -> (a: ProtocolAction)
        requires
            old(self).wf(),
            old(self).request_generation_id.0 < u32::MAX,
        ensures
            final(self).wf(),
            attrs_eq(*final(self), old(self).with_attr(name, value)),
            tracker_eq(*final(self), *old(self)),
            slot_eq(*final(self), *old(self)),
            final(self).in_document_tree == old(self).in_document_tree,
            final(self).parser_inserted == old(self).parser_inserted,
            ({
                let s1 = old(self).with_attr(name, value);
                &&& ((mutation_requests_stylesheet(s1, name, value) && s1.stylesheet_load_fires(
                    *ctx,
                )) <==> a is StartStylesheetLoad)
                &&& (a matches ProtocolAction::StartStylesheetLoad(req) ==> loader_request_for(
                    s1,
                    *ctx,
                    req,
                ) && final(self).request_generation_id == req.generation && final(self).request_generation_id.0 == old(self).request_generation_id.0 + 1)
                &&& (a !is StartStylesheetLoad ==> final(self).request_generation_id == old(self).request_generation_id)
                &&& ((mutation_requests_favicon(s1, name, value) && s1.favicon_fires(*ctx)) <==> a
                    is NotifyFavicon)
                &&& (a matches ProtocolAction::NotifyFavicon(u) ==> (s1.href matches Some(h)
                    && Some(u@) == join_of(ctx.base_url@, h@)))
            }),
    {
        let is_removal = value.is_none();
        match name {
            LinkAttribute::Rel => {
                self.rel = value;
            },
            LinkAttribute::Href => {
                self.href = value;
            },
            LinkAttribute::Sizes => {
                self.sizes = value;
            },
            LinkAttribute::Media => {
                self.media = value;
            },
            LinkAttribute::Integrity => {
                self.integrity = value;
            },
            LinkAttribute::CrossOrigin => {
                self.cross_origin = value;
            },
        }
        if !self.in_document_tree || is_removal {
            return ProtocolAction::Nothing;
        }
        match name {
            LinkAttribute::Href => {
                if crate::tokens::string_is_stylesheet(&self.rel) {
                    self.handle_stylesheet_url(ctx)
                } else if crate::tokens::is_favicon(&self.rel) {
                    match self.handle_favicon_url(ctx) {
                        Some(u) => ProtocolAction::NotifyFavicon(u),
                        None => ProtocolAction::Nothing,
                    }
                } else {
                    ProtocolAction::Nothing
                }
            },
            LinkAttribute::Sizes => {
                if crate::tokens::is_favicon(&self.rel) {
                    if self.href.is_some() {
                        match self.handle_favicon_url(ctx) {
                            Some(u) => ProtocolAction::NotifyFavicon(u),
                            None => ProtocolAction::Nothing,
                        }
                    } else {
                        ProtocolAction::Nothing
                    }
                } else {
                    ProtocolAction::Nothing
                }
            },
            _ => ProtocolAction::Nothing,
        }
    }

    /// One asynchronous sub-load completion, carrying the generation
    /// that was current when its request was issued. The completion is
    /// always accounted into the pending-load tracker; its resource,
    /// if it carries one, is offered to the slot and discarded there
    /// unless the element is still in the tree and the generation is
    /// still current. On the last outstanding completion the batch's
    /// aggregate outcome is produced, exactly once.
    pub fn complete_sub_load(
        &mut self,
        resource: Option<StylesheetHandle>,
        generation_at_request: RequestGenerationId,
        succeeded: bool,
    ) -> (outcome: SubLoadOutcome)
        requires
            old(self).wf(),
            old(self).pending_loads > 0,
        ensures
            final(self).wf(),
            attrs_eq(*final(self), *old(self)),
            final(self).in_document_tree == old(self).in_document_tree,
            final(self).parser_inserted == old(self).parser_inserted,
            final(self).request_generation_id == old(self).request_generation_id,
            outcome.installed == (resource is Some && old(self).in_document_tree
                && generation_at_request == old(self).request_generation_id),
            outcome.installed ==> {
                &&& final(self).stylesheet == resource
                &&& final(self).cssom_stylesheet is None
                &&& outcome.deregistered == old(self).stylesheet
            },
            !outcome.installed ==> slot_eq(*final(self), *old(self)) && outcome.deregistered
                is None,
            final(self).pending_loads == old(self).pending_loads - 1,
            (old(self).pending_loads > 1 ==> outcome.aggregate_report is None && final(self).any_failed_load == (old(self).any_failed_load || !succeeded)),
            (old(self).pending_loads == 1 ==> outcome.aggregate_report == Some(old(self).any_failed_load || !succeeded) && !final(self).any_failed_load),
    {
        let mut deregistered: Option<StylesheetHandle> = None;
        let mut installed = false;
        match resource {
            Some(s) => {
                if self.in_document_tree && generation_at_request == self.request_generation_id {
                    deregistered = self.set_stylesheet(s);
                    installed = true;
                }
            },
            None => {},
        }
        let aggregate_report = self.load_finished(succeeded);
        SubLoadOutcome { deregistered, installed, aggregate_report }
    }
}

} // verus!
