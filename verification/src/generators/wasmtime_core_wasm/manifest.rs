//! The ABI manifest: a TOML document with the schema header, the resource
//! declarations, and one record per import, generated control and export.

use vstd::prelude::*;
use crate::types::{TypeIdent, Type, TypeMap, ident_text, ResourceOwnership};
use crate::text::{seq_join, views, join, decimal, decimal_string};
use super::lowering::{
    LoweredModel, LoweredFunction, FunctionModel, function_views, release_name, owned_entry, resource_entry,
    entry_resource, resource_release_import_name,
};
use super::common::{manifest_value_spec};
use super::host::{any_async, has_async};

verus! {

/// The namespace of every import and export of the ABI.
pub const ABI_NAMESPACE: &'static str = "kernal-api:v1";

/// The ABI version recorded in the manifest.
pub const ABI_VERSION: u8 = 1;

/// The manifest schema.
pub const SCHEMA: &'static str = "fp-bindgen.core-wasm-abi";

/// The revision of the manifest schema.
pub const SCHEMA_REVISION: u8 = 1;

/// The revision of this generator.
pub const GENERATOR_REVISION: u8 = 1;

/// The manifest records of the four operation controls of async imports.
pub const OPERATION_CONTROL_RECORDS: &'static str = "[[imports]]\nnamespace = \"kernal-api:v1\"\nname = \"poll_operation\"\ndirection = \"guest-to-host\"\ngenerated = true\nparams = [{ semantic = \"u64\", abi = \"i64\" }]\nresults = [{ semantic = \"i32\", abi = \"i32\" }]\n\n[[imports]]\nnamespace = \"kernal-api:v1\"\nname = \"take_operation_result\"\ndirection = \"guest-to-host\"\ngenerated = true\nparams = [{ semantic = \"u64\", abi = \"i64\" }]\nresults = [{ semantic = \"i64\", abi = \"i64\" }]\n\n[[imports]]\nnamespace = \"kernal-api:v1\"\nname = \"yield_operation\"\ndirection = \"guest-to-host\"\ngenerated = true\nparams = [{ semantic = \"u64\", abi = \"i64\" }]\nresults = [{ semantic = \"()\", abi = \"unit\" }]\n\n[[imports]]\nnamespace = \"kernal-api:v1\"\nname = \"cancel_operation\"\ndirection = \"guest-to-host\"\ngenerated = true\nparams = [{ semantic = \"u64\", abi = \"i64\" }]\nresults = [{ semantic = \"()\", abi = \"unit\" }]\n\n";

/// Renders the manifest records of the operation controls.
pub fn render_operation_control_manifest_records() -> (r: String)
    ensures
        r@ == OPERATION_CONTROL_RECORDS@,
{
    String::from_str(OPERATION_CONTROL_RECORDS)
}

/// The ownership policy a resource declares in the manifest.
pub open spec fn ownership_text(ownership: ResourceOwnership) -> Seq<char> {
    match ownership {
        ResourceOwnership::Stream => "stream"@,
        ResourceOwnership::Owned => "owned"@,
        ResourceOwnership::Transport => "transport"@,
    }
}

/// The manifest record of one resource.
pub open spec fn resource_record(ident: Seq<char>, ownership: Seq<char>) -> Seq<char> {
    "[[resources]]\nname = \""@ + ident + "\"\nkind = \"opaque_host_handle\"\nownership = \""@ + ownership + "\"\nabi = \"i64\"\n\n"@
}

pub open spec fn resource_records(types: Seq<(TypeIdent, Type)>, n: int) -> Seq<char>
    decreases n,
{
    if n <= 0 {
        Seq::empty()
    } else if resource_entry(types, n - 1) {
        resource_records(types, n - 1) + resource_record(
            ident_text(entry_resource(types, n - 1).ident),
            ownership_text(entry_resource(types, n - 1).ownership),
        )
    } else {
        resource_records(types, n - 1)
    }
}

/// The generated release-control record of one owned resource.
pub open spec fn release_record(release: Seq<char>, ident: Seq<char>) -> Seq<char> {
    "[[imports]]\nnamespace = \"kernal-api:v1\"\nname = \""@ + release + "\"\ndirection = \"guest-to-host\"\ngenerated = true\nresource_control = \"release\"\nparams = [{ semantic = \""@ + ident + "\", abi = \"i64\", kind = \"resource\" }]\nresults = [{ semantic = \"i32\", abi = \"i32\" }]\n\n"@
}

pub open spec fn release_records(types: Seq<(TypeIdent, Type)>, snakes: Seq<Seq<char>>, n: int) -> Seq<char>
    decreases n,
{
    if n <= 0 {
        Seq::empty()
    } else if owned_entry(types, n - 1) {
        release_records(types, snakes, n - 1) + release_record(
            release_name(snakes[n - 1]),
            ident_text(entry_resource(types, n - 1).ident),
        )
    } else {
        release_records(types, snakes, n - 1)
    }
}

/// The record of a unit result.
pub open spec fn unit_record() -> Seq<char> {
    "{ semantic = \"()\", abi = \"unit\" }"@
}

/// The manifest record of one import or export; an async import records an
/// operation handle as its result and its completion type separately.
pub open spec fn manifest_record_spec(table: Seq<char>, direction: Seq<char>, f: FunctionModel) -> Seq<char> {
    let params = seq_join(f.args.map_values(|a: (Seq<char>, LoweredModel)| manifest_value_spec(a.1)), ", "@);
    let completion = match f.ret {
        Some(t) => manifest_value_spec(t),
        None => unit_record(),
    };
    let results = if f.is_async {
        "{ semantic = \"operation\", abi = \"i64\" }"@
    } else {
        completion
    };
    let operation = if f.is_async {
        "async = true\noperation_result = "@ + completion + "\n"@
    } else {
        Seq::empty()
    };
    "[["@ + table + "]]\nnamespace = \"kernal-api:v1\"\nname = \""@ + f.name + "\"\ndirection = \""@ + direction + "\"\nparams = ["@ + params + "]\nresults = ["@ + results + "]\n"@ + operation
}

pub open spec fn manifest_records_spec(table: Seq<char>, direction: Seq<char>, fs: Seq<FunctionModel>) -> Seq<char> {
    seq_join(fs.map_values(|f: FunctionModel| manifest_record_spec(table, direction, f)), "\n"@)
}

/// The manifest header.
pub open spec fn manifest_header() -> Seq<char> {
    "schema = \""@ + SCHEMA@ + "\"\nschema_revision = "@ + decimal(SCHEMA_REVISION as nat)
        + "\ngenerator_revision = "@ + decimal(GENERATOR_REVISION as nat) + "\nabi_version = "@
        + decimal(ABI_VERSION as nat) + "\nnamespace = \""@ + ABI_NAMESPACE@ + "\"\n\n"@
}

/// The whole manifest.
pub open spec fn manifest_spec(
    imports: Seq<FunctionModel>,
    exports: Seq<FunctionModel>,
    types: Seq<(TypeIdent, Type)>,
    snakes: Seq<Seq<char>>,
) -> Seq<char> {
    let operation_controls = if any_async(imports) {
        "\n"@ + OPERATION_CONTROL_RECORDS@
    } else {
        "\n"@
    };
    manifest_header() + resource_records(types, types.len() as int) + manifest_records_spec(
        "imports"@,
        "guest-to-host"@,
        imports,
    ) + operation_controls + release_records(types, snakes, types.len() as int) + manifest_records_spec(
        "exports"@,
        "host-to-guest"@,
        exports,
    )
}

pub fn render_manifest_record(table: &str, direction: &str, f: &LoweredFunction) -> (r: String)
    ensures
        r@ == manifest_record_spec(table@, direction@, f@),
{
    let mut parts: Vec<String> = Vec::new();
    let mut i: usize = 0;
    while i < f.args.len()
        invariant
            i <= f.args@.len(),
            parts@.len() == i,
            forall|j: int| 0 <= j < i ==> #[trigger] parts@[j]@ == manifest_value_spec(f@.args[j].1),
        decreases f.args@.len() - i,
    {
        parts.push(f.args[i].ty.manifest());
        i = i + 1;
    }
    proof {
        assert(views(parts@) =~= f@.args.map_values(|a: (Seq<char>, LoweredModel)| manifest_value_spec(a.1)));
        reveal_strlit("");
    }
    let params = join(&parts, ", ");
    let completion = match &f.return_type {
        Some(t) => t.manifest(),
        None => String::from_str("{ semantic = \"()\", abi = \"unit\" }"),
    };
    let results = if f.is_async {
        String::from_str("{ semantic = \"operation\", abi = \"i64\" }")
    } else {
        completion.clone()
    };
    let operation = if f.is_async {
        let mut o = String::from_str("async = true\noperation_result = ");
        o.append(completion.as_str());
        o.append("\n");
        o
    } else {
        String::new()
    };
    let mut r = String::from_str("[[");
    r.append(table);
    r.append("]]\nnamespace = \"kernal-api:v1\"\nname = \"");
    r.append(f.name.as_str());
    r.append("\"\ndirection = \"");
    r.append(direction);
    r.append("\"\nparams = [");
    r.append(params.as_str());
    r.append("]\nresults = [");
    r.append(results.as_str());
    r.append("]\n");
    r.append(operation.as_str());
    r
}

fn render_manifest_records(table: &str, direction: &str, fs: &Vec<LoweredFunction>) -> (r: String)
    ensures
        r@ == manifest_records_spec(table@, direction@, function_views(fs@)),
{
    let mut parts: Vec<String> = Vec::new();
    let mut i: usize = 0;
    while i < fs.len()
        invariant
            i <= fs@.len(),
            parts@.len() == i,
            forall|j: int| 0 <= j < i ==> #[trigger] parts@[j]@ == manifest_record_spec(table@, direction@, fs@[j]@),
        decreases fs@.len() - i,
    {
        parts.push(render_manifest_record(table, direction, &fs[i]));
        i = i + 1;
    }
    proof {
        assert(views(parts@) =~= function_views(fs@).map_values(
            |f: FunctionModel| manifest_record_spec(table@, direction@, f),
        ));
    }
    join(&parts, "\n")
}

fn render_resource_records(types: &TypeMap) -> (r: String)
    ensures
        r@ == resource_records(types@, types@.len() as int),
{
    let entries = types.entries();
    let mut r = String::new();
    let mut i: usize = 0;
    while i < entries.len()
        invariant
            entries@ == types@,
            i <= types@.len(),
            r@ == resource_records(types@, i as int),
        decreases types@.len() - i,
    {
        if let Type::Resource(resource) = &entries[i].1 {
            let ident = resource.ident.to_text();
            let ownership = if resource.is_stream() {
                "stream"
            } else if resource.is_owned() {
                "owned"
            } else {
                "transport"
            };
            r.append("[[resources]]\nname = \"");
            r.append(ident.as_str());
            r.append("\"\nkind = \"opaque_host_handle\"\nownership = \"");
            r.append(ownership);
            r.append("\"\nabi = \"i64\"\n\n");
        }
        i = i + 1;
    }
    r
}

pub fn render_resource_release_manifest_records(types: &TypeMap, snakes: &Vec<String>) -> (r: String)
    requires
        snakes@.len() == types@.len(),
    ensures
        r@ == release_records(types@, views(snakes@), types@.len() as int),
{
    let entries = types.entries();
    let mut r = String::new();
    let mut i: usize = 0;
    while i < entries.len()
        invariant
            entries@ == types@,
            snakes@.len() == types@.len(),
            i <= types@.len(),
            r@ == release_records(types@, views(snakes@), i as int),
        decreases types@.len() - i,
    {
        proof {
            assert(views(snakes@)[i as int] == snakes@[i as int]@);
        }
        if let Type::Resource(resource) = &entries[i].1 {
            if resource.is_owned() {
                let release = resource_release_import_name(snakes[i].as_str());
                let ident = resource.ident.to_text();
                r.append("[[imports]]\nnamespace = \"kernal-api:v1\"\nname = \"");
                r.append(release.as_str());
                r.append("\"\ndirection = \"guest-to-host\"\ngenerated = true\nresource_control = \"release\"\nparams = [{ semantic = \"");
                r.append(ident.as_str());
                r.append("\", abi = \"i64\", kind = \"resource\" }]\nresults = [{ semantic = \"i32\", abi = \"i32\" }]\n\n");
            }
        }
        i = i + 1;
    }
    r
}

/// Renders the ABI manifest.
pub fn render_manifest(
    imports: &Vec<LoweredFunction>,
    exports: &Vec<LoweredFunction>,
    types: &TypeMap,
    snakes: &Vec<String>,
) -> (r: String)
    requires
        snakes@.len() == types@.len(),
    ensures
        r@ == manifest_spec(function_views(imports@), function_views(exports@), types@, views(snakes@)),
{
    let resources = render_resource_records(types);
    let import_records = render_manifest_records("imports", "guest-to-host", imports);
    let export_records = render_manifest_records("exports", "host-to-guest", exports);
    let mut operation_controls = String::from_str("\n");
    if has_async(imports) {
        let records = render_operation_control_manifest_records();
        operation_controls.append(records.as_str());
    }
    let resource_controls = render_resource_release_manifest_records(types, snakes);
    let mut r = String::from_str("schema = \"");
    r.append(SCHEMA);
    r.append("\"\nschema_revision = ");
    let d = decimal_string(SCHEMA_REVISION as usize);
    r.append(d.as_str());
    r.append("\ngenerator_revision = ");
    let d = decimal_string(GENERATOR_REVISION as usize);
    r.append(d.as_str());
    r.append("\nabi_version = ");
    let d = decimal_string(ABI_VERSION as usize);
    r.append(d.as_str());
    r.append("\nnamespace = \"");
    r.append(ABI_NAMESPACE);
    r.append("\"\n\n");
    r.append(resources.as_str());
    r.append(import_records.as_str());
    r.append(operation_controls.as_str());
    r.append(resource_controls.as_str());
    r.append(export_records.as_str());
    r
}

} // verus!
