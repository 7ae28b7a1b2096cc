use vstd::prelude::*;

verus! {

/// The C# source that csharpbindgen emits for the Rust source `rust_code`,
/// with `dll` as the library that every `DllImport` names, `class` as the
/// class that holds the functions, and `ignores` as the identifier patterns
/// that get no binding; `None` where it cannot parse or convert the source.
pub uninterp spec fn csharp_bindings_of(
    dll: Seq<char>,
    class: Seq<char>,
    ignores: Seq<Seq<char>>,
    rust_code: Seq<char>,
) -> Option<Seq<char>>;

#[verifier::external_type_specification]
#[verifier::external_body]
pub struct ExBindgenError(csharpbindgen::Error);

/// The views of a list of patterns.
pub open spec fn patterns_view(patterns: Seq<&str>) -> Seq<Seq<char>> {
    patterns.map_values(|p: &str| p@)
}

/// Relies on csharpbindgen's `Builder::generate` (configured through
/// `Builder::new`, `class_name` and `ignore`): the C# source it returns, or
/// its failure, depends on these arguments alone.
#[verifier::external_body]
fn generate_csharp(dll: &str, class: &str, ignores: &[&str], rust_code: String) -> (r: Result<
    String,
    csharpbindgen::Error,
>)
    ensures
        r is Ok <==> csharp_bindings_of(dll@, class@, patterns_view(ignores@), rust_code@) is Some,
        r is Ok ==> csharp_bindings_of(dll@, class@, patterns_view(ignores@), rust_code@)
            == Some(r->Ok_0@),
{
    csharpbindgen::Builder::new(dll, rust_code).class_name(class).ignore(ignores).generate()
}

/// The native library that the C# bindings load.
pub open spec fn plugin_dll() -> Seq<char> {
    "GfxPluginPathfinder"@
}

/// The C# class that holds the bound functions.
pub open spec fn binding_class() -> Seq<char> {
    "PF"@
}

/// The identifiers, and the prefixes marked by a trailing `*`, that get no
/// generated binding because they need marshalling written by hand: the GL
/// function loader, font collections, scene construction, renderer options,
/// and the backend-specific scene, GL and Metal handles.
pub open spec fn exclusions() -> Seq<Seq<char>> {
    seq![
        "PFGLFunctionLoader"@,
        "PFCanvasFontContextCreateWithFonts"@,
        "PFCanvasCreateScene"@,
        "PFRendererOptions"@,
        "PFScene*"@,
        "PFGL*"@,
        "PFMetal*"@,
    ]
}

/// The C# bindings for the API source `api_source`.
pub open spec fn bindings_for(api_source: Seq<char>) -> Option<Seq<char>> {
    csharp_bindings_of(plugin_dll(), binding_class(), exclusions(), api_source)
}

/// The exclusion patterns, in order.
pub fn exclusion_patterns() -> (r: Vec<&'static str>)
    ensures
        patterns_view(r@) == exclusions(),
{
    let r = vec![
        "PFGLFunctionLoader",
        "PFCanvasFontContextCreateWithFonts",
        "PFCanvasCreateScene",
        "PFRendererOptions",
        "PFScene*",
        "PFGL*",
        "PFMetal*",
    ];
    assert(patterns_view(r@) =~= exclusions());
    r
}

/// Why the C# bindings could not be emitted.
pub struct BindingError {
    pub cause: csharpbindgen::Error,
}

/// Emits the C# bindings for the rewritten API source `api_source`: class
/// `PF`, bound to `GfxPluginPathfinder`, without the excluded identifiers.
pub fn csharp_bindings(api_source: String) -> (r: Result<String, BindingError>)
    ensures
        r is Ok <==> bindings_for(api_source@) is Some,
        r is Ok ==> bindings_for(api_source@) == Some(r->Ok_0@),
{
    let patterns = exclusion_patterns();
    match generate_csharp("GfxPluginPathfinder", "PF", patterns.as_slice(), api_source) {
        Ok(code) => Ok(code),
        Err(cause) => Err(BindingError { cause }),
    }
}

} // verus!
