//! Installed client configurations: what they refer to, and what is missing.
use super::files::{metadata_failed, metadata_fault, read_failed, read_fault};
use super::nonce::{binding_nonce_of, config_nonce};
use super::types::{
    malformed, refuse, AdapterBindingProofError, BindingFault, InstalledConfigScan,
    InstalledConfigScanView, ObservedFile, ObservedFileView,
};
use crate::fingerprint::{fingerprint, stable_content_fingerprint};
use crate::json::{opt_int, opt_text, Json, JsonView, Members};
use crate::outcome::{borrowed, outcome, owned, verdict};
use crate::outside::{json_of, parse_json, utf8_fault, utf8_text};
use crate::storage::{level_name, ClientBindingProofLevel};
use crate::text::{cat2, cat4, contains, lower, lowered, mentions, nil, none, with};
use vstd::prelude::*;
use vstd::string::*;
use vstd::utf8::{decode_utf8, valid_utf8};

verus! {

/// What a configuration with this text refers to.
pub open spec fn config_scan(
    path: Seq<char>,
    modified_at_ns: Option<i64>,
    bytes: Seq<u8>,
    raw: Seq<char>,
    nonce: Option<Seq<char>>,
    client: Seq<char>,
    event_source: Option<Seq<char>>,
) -> InstalledConfigScanView {
    let text = lowered(raw);
    InstalledConfigScanView {
        path,
        byte_len: bytes.len() as u64,
        modified_at_ns,
        fingerprint: fingerprint(bytes),
        expected_event_source: event_source,
        binding_nonce: nonce,
        references_lifecycle_wrapper: contains(text, "soma-adapter-lifecycle.sh"@) || contains(
            text,
            "adapter-lifecycle"@,
        ),
        references_spool_append: contains(text, "soma-adapter-spool-append.sh"@) || contains(
            text,
            "adapter-spool-append"@,
        ),
        references_spool_drain: contains(text, "soma-adapter-spool-watch.sh"@) || contains(
            text,
            "adapter-spool"@,
        ),
        references_review_render: contains(text, "soma-review-render.sh"@) || contains(
            text,
            "review-render"@,
        ),
        references_client: contains(text, lowered(client)),
        references_event_jsonl_env: contains(text, "soma_adapter_lifecycle_jsonl"@) || contains(
            text,
            "soma_adapter_spool_jsonl"@,
        ) || contains(text, "adapter-spool.jsonl"@) || contains(text, "adapter/events.jsonl"@),
        references_private_event_source: match event_source {
            Some(s) => contains(text, lowered(s)),
            None => false,
        },
        references_binding_nonce: nonce is Some,
    }
}

/// What a configuration refers to, from its text and its nonce.
pub fn installed_config_scan_of(
    path: &str,
    modified_at_ns: Option<i64>,
    bytes: &[u8],
    raw: &str,
    nonce: Option<String>,
    client: &str,
    event_source: Option<&str>,
) -> (r: InstalledConfigScan)
    ensures
        r.deep_view() == config_scan(
            path@,
            modified_at_ns,
            bytes@,
            raw@,
            nonce.deep_view(),
            client@,
            event_source.deep_view(),
        ),
{
    let lowered_text = lower(raw);
    let text = lowered_text.as_str();
    InstalledConfigScan {
        path: path.to_string(),
        byte_len: bytes.len() as u64,
        modified_at_ns,
        fingerprint: stable_content_fingerprint(bytes),
        expected_event_source: owned(event_source),
        references_binding_nonce: nonce.is_some(),
        binding_nonce: nonce,
        references_lifecycle_wrapper: mentions(text, "soma-adapter-lifecycle.sh") || mentions(
            text,
            "adapter-lifecycle",
        ),
        references_spool_append: mentions(text, "soma-adapter-spool-append.sh") || mentions(
            text,
            "adapter-spool-append",
        ),
        references_spool_drain: mentions(text, "soma-adapter-spool-watch.sh") || mentions(
            text,
            "adapter-spool",
        ),
        references_review_render: mentions(text, "soma-review-render.sh")
            || mentions(text, "review-render"),
        references_client: mentions(text, lower(client).as_str()),
        references_event_jsonl_env: mentions(text, "soma_adapter_lifecycle_jsonl") || mentions(
            text,
            "soma_adapter_spool_jsonl",
        ) || mentions(text, "adapter-spool.jsonl") || mentions(text, "adapter/events.jsonl"),
        references_private_event_source: match event_source {
            Some(s) => mentions(text, lower(s).as_str()),
            None => false,
        },
    }
}

pub const CONFIG_LABEL: &'static str = "installed config";

/// What an installed configuration refers to.
pub open spec fn scanned_config(
    file: ObservedFileView,
    client: Seq<char>,
    event_source: Option<Seq<char>>,
) -> Result<InstalledConfigScanView, BindingFault> {
    if file.metadata_error is Some {
        Err(metadata_fault(CONFIG_LABEL@, file.path, file.metadata_error->0))
    } else if file.read_error is Some {
        Err(read_fault(CONFIG_LABEL@, file.path, file.read_error->0))
    } else if !valid_utf8(file.contents) {
        malformed(
            "installed config `"@ + file.path + "` must be utf-8: "@ + utf8_fault(file.contents),
        )
    } else {
        let raw = decode_utf8(file.contents);
        Ok(
            config_scan(
                file.path,
                file.modified_at_ns,
                file.contents,
                raw,
                config_nonce(json_of(raw), raw),
                client,
                event_source,
            ),
        )
    }
}

pub fn scan_installed_config(
    file: &ObservedFile,
    client: &str,
    expected_event_source: Option<&str>,
) -> (r: Result<InstalledConfigScan, AdapterBindingProofError>)
    ensures
        outcome(r) == scanned_config(
            file.deep_view(),
            client@,
            expected_event_source.deep_view(),
        ),
{
    match &file.metadata_error {
        Some(e) => return Err(metadata_failed(CONFIG_LABEL, file.path.as_str(), e.as_str())),
        None => {},
    }
    match &file.read_error {
        Some(e) => return Err(read_failed(CONFIG_LABEL, file.path.as_str(), e.as_str())),
        None => {},
    }
    assert(file.contents.deep_view() =~= file.contents@);
    match utf8_text(file.contents.as_slice()) {
        Err(e) => Err(
            AdapterBindingProofError::MalformedInput(
                cat4("installed config `", file.path.as_str(), "` must be utf-8: ", e.as_str()),
            ),
        ),
        Ok(raw) => {
            let parsed = parse_json(raw.as_str());
            let nonce = binding_nonce_of(&parsed, raw.as_str());
            Ok(
                installed_config_scan_of(
                    file.path.as_str(),
                    file.modified_at_ns,
                    file.contents.as_slice(),
                    raw.as_str(),
                    nonce,
                    client,
                    expected_event_source,
                ),
            )
        },
    }
}

/// One more text, where `wanted` holds.
#[verifier::opaque]
pub open spec fn add_if(list: Seq<Seq<char>>, wanted: bool, item: Seq<char>) -> Seq<Seq<char>> {
    if wanted {
        list.push(item)
    } else {
        list
    }
}

/// One more fixed text, where `wanted` holds.
pub fn push_if(list: Vec<&'static str>, wanted: bool, item: &'static str) -> (r: Vec<&'static str>)
    ensures
        r.deep_view() == add_if(list.deep_view(), wanted, item@),
{
    reveal(add_if);
    if wanted {
        with(list, item)
    } else {
        list
    }
}

/// What a configuration lacks for app-hook proof.
pub open spec fn app_hook_lacks(s: InstalledConfigScanView) -> Seq<Seq<char>> {
    let a = add_if(
        nil(),
        !(s.references_lifecycle_wrapper || s.references_spool_append),
        "lifecycle_or_spool_append_wrapper_reference"@,
    );
    let b = add_if(a, !s.references_client, "target_client_reference"@);
    let c = add_if(b, !s.references_event_jsonl_env, "adapter_jsonl_spool_reference"@);
    let d = add_if(c, !s.references_private_event_source, "private_event_source_reference"@);
    add_if(d, !s.references_binding_nonce, "binding_nonce_reference"@)
}

pub fn observed_app_hook_missing_requirements(scan: &InstalledConfigScan) -> (r: Vec<&'static str>)
    ensures
        r.deep_view() == app_hook_lacks(scan.deep_view()),
{
    let list: Vec<&'static str> = none();
    let list = push_if(
        list,
        !(scan.references_lifecycle_wrapper || scan.references_spool_append),
        "lifecycle_or_spool_append_wrapper_reference",
    );
    let list = push_if(list, !scan.references_client, "target_client_reference");
    let list = push_if(list, !scan.references_event_jsonl_env, "adapter_jsonl_spool_reference");
    let list = push_if(
        list,
        !scan.references_private_event_source,
        "private_event_source_reference",
    );
    push_if(list, !scan.references_binding_nonce, "binding_nonce_reference")
}

pub const WRAPPER_MISSING: &'static str =
    "installed config must reference soma-adapter-lifecycle.sh, adapter-lifecycle, soma-adapter-spool-append.sh, or adapter-spool-append";

pub const CLIENT_MISSING: &'static str = "installed config must reference the target client name";

pub const SPOOL_MISSING: &'static str =
    "installed config must reference the adapter JSONL spool path or env var";

pub const SOURCE_MISSING: &'static str =
    "installed config must reference the expected private event source";

pub const NONCE_MISSING: &'static str =
    "installed config must include SOMA_ADAPTER_LIFECYCLE_BINDING_NONCE or binding_nonce";

pub const RENDER_MISSING: &'static str =
    "installed config must reference soma-review-render.sh or review-render";

/// What a level of proof asks of the installed configuration.
pub open spec fn config_suffices(
    level: ClientBindingProofLevel,
    scan: Option<InstalledConfigScanView>,
) -> Result<(), BindingFault> {
    match level {
        ClientBindingProofLevel::ReferenceBinding | ClientBindingProofLevel::ObservedEventFile =>
            Ok(
            (),
        ),
        ClientBindingProofLevel::ObservedAppHook => match scan {
            None => malformed("observed_app_hook requires --installed-config"@),
            Some(s) => if !(s.references_lifecycle_wrapper || s.references_spool_append) {
                malformed(WRAPPER_MISSING@)
            } else if !s.references_client {
                malformed(CLIENT_MISSING@)
            } else if !s.references_event_jsonl_env {
                malformed(SPOOL_MISSING@)
            } else if !s.references_private_event_source {
                malformed(SOURCE_MISSING@)
            } else if !s.references_binding_nonce {
                malformed(NONCE_MISSING@)
            } else {
                Ok(())
            },
        },
        ClientBindingProofLevel::ObservedInClientRender
        | ClientBindingProofLevel::ObservedReviewAction => match scan {
            None => malformed(level_name(level) + " requires --installed-config"@),
            Some(s) => if !s.references_review_render {
                malformed(RENDER_MISSING@)
            } else if !s.references_client {
                malformed(CLIENT_MISSING@)
            } else {
                Ok(())
            },
        },
    }
}

pub fn require_installed_config_for_level(
    level: ClientBindingProofLevel,
    scan: &Option<InstalledConfigScan>,
) -> (r: Result<(), AdapterBindingProofError>)
    ensures
        verdict(r) == config_suffices(level, scan.deep_view()),
{
    match level {
        ClientBindingProofLevel::ReferenceBinding | ClientBindingProofLevel::ObservedEventFile => {
            Ok(())
        },
        ClientBindingProofLevel::ObservedAppHook => {
            match scan {
                None => refuse("observed_app_hook requires --installed-config"),
                Some(s) => {
                    if !(s.references_lifecycle_wrapper || s.references_spool_append) {
                        refuse(WRAPPER_MISSING)
                    } else if !s.references_client {
                        refuse(CLIENT_MISSING)
                    } else if !s.references_event_jsonl_env {
                        refuse(SPOOL_MISSING)
                    } else if !s.references_private_event_source {
                        refuse(SOURCE_MISSING)
                    } else if !s.references_binding_nonce {
                        refuse(NONCE_MISSING)
                    } else {
                        Ok(())
                    }
                },
            }
        },
        ClientBindingProofLevel::ObservedInClientRender
        | ClientBindingProofLevel::ObservedReviewAction => {
            match scan {
                None => refuse(cat2(level.as_str(), " requires --installed-config").as_str()),
                Some(s) => {
                    if !s.references_review_render {
                        refuse(RENDER_MISSING)
                    } else if !s.references_client {
                        refuse(CLIENT_MISSING)
                    } else {
                        Ok(())
                    }
                },
            }
        },
    }
}

/// A configuration scan, as it is stored.
pub open spec fn config_scan_json(s: InstalledConfigScanView) -> JsonView {
    JsonView::Object(
        Seq::empty().push(("path"@, JsonView::Text(s.path)))
            .push(("byte_len"@, JsonView::Int(s.byte_len as int)))
            .push(("modified_at_ns"@, opt_int(s.modified_at_ns)))
            .push(("fingerprint"@, JsonView::Text(s.fingerprint)))
            .push(("expected_event_source"@, opt_text(s.expected_event_source)))
            .push(("binding_nonce"@, opt_text(s.binding_nonce)))
            .push(("references_lifecycle_wrapper"@, JsonView::Bool(s.references_lifecycle_wrapper)))
            .push(("references_spool_append"@, JsonView::Bool(s.references_spool_append)))
            .push(("references_spool_drain"@, JsonView::Bool(s.references_spool_drain)))
            .push(("references_review_render"@, JsonView::Bool(s.references_review_render)))
            .push(("references_client"@, JsonView::Bool(s.references_client)))
            .push(("references_event_jsonl_env"@, JsonView::Bool(s.references_event_jsonl_env)))
            .push(("references_private_event_source"@,
            JsonView::Bool(s.references_private_event_source)))
            .push(("references_binding_nonce"@, JsonView::Bool(s.references_binding_nonce))),
    )
}

impl InstalledConfigScan {
    pub fn to_json(&self) -> (r: Json)
        ensures
            r@ == config_scan_json(self.deep_view()),
    {
        Members::new().text("path", self.path.as_str()).integer("byte_len", self.byte_len as i128)
            .opt_integer("modified_at_ns", self.modified_at_ns)
            .text("fingerprint", self.fingerprint.as_str())
            .opt_text("expected_event_source", borrowed(&self.expected_event_source))
            .opt_text("binding_nonce", borrowed(&self.binding_nonce))
            .flag("references_lifecycle_wrapper", self.references_lifecycle_wrapper)
            .flag("references_spool_append", self.references_spool_append)
            .flag("references_spool_drain", self.references_spool_drain)
            .flag("references_review_render", self.references_review_render)
            .flag("references_client", self.references_client)
            .flag("references_event_jsonl_env", self.references_event_jsonl_env)
            .flag("references_private_event_source", self.references_private_event_source)
            .flag("references_binding_nonce", self.references_binding_nonce).done()
    }
}

pub proof fn lemma_add_if(list: Seq<Seq<char>>, wanted: bool, item: Seq<char>, x: Seq<char>)
    ensures
        add_if(list, wanted, item).len() == list.len() + (if wanted {
            1int
        } else {
            0
        }),
        add_if(list, wanted, item).contains(x) <==> list.contains(x) || (wanted && x == item),
{
    reveal(add_if);
    if wanted {
        assert(list.push(item)[list.len() as int] == item);
        if list.contains(x) {
            let i = choose|i: int| 0 <= i < list.len() && list[i] == x;
            assert(list.push(item)[i] == x);
        }
    }
}

/// A configuration lacks nothing for app-hook proof exactly where the level accepts
/// it.
pub proof fn law_eligible_configs_suffice(s: InstalledConfigScanView)
    ensures
        app_hook_lacks(s).len() == 0 <==> config_suffices(
            ClientBindingProofLevel::ObservedAppHook,
            Some(s),
        ) == Ok::<(), BindingFault>(()),
{
    reveal(add_if);
}

}
