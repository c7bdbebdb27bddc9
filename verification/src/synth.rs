//! The synthesizer: combines the matched declaration and the parsed options
//! into an abstract definition of the world type to emit — its fields, its
//! reader methods, and whether the concurrency guard is embedded. A concrete
//! code-emission backend renders this description into source text.

use vstd::prelude::*;
use crate::config::{
    ArgsModel,
    ConfigError,
    SymbolPath,
    WorlderArgs,
    config_error_matches,
    default_args_model,
    parse_worlder_args,
    path_match,
    spec_parse_args,
};
use crate::decl::{
    ParsedDeclaration,
    ShapeError,
    decl_matches,
    decl_name,
    parse_declaration,
    prefix_len,
    rest_of,
    shape_with_vis,
};
use crate::tokens::Token;

verus! {

/// The type of one synthesized field.
#[derive(Clone, Copy, PartialEq, Eq, Structural, Debug)]
pub enum FieldType {
    /// The driver session handle.
    DriverHandle,
    /// A URL string.
    Text,
    /// A boolean flag.
    Flag,
    /// A width and height pair.
    Dimensions,
}

/// One field of the synthesized world type.
#[derive(Debug)]
pub struct FieldDef {
    pub name: String,
    pub ty: FieldType,
}

/// The synthesized definition: the pass-through prefix emitted first, the
/// declared visibility and name, the library paths woven into the emitted
/// code, the field list, the reader methods, and whether the initialization
/// routine embeds the concurrency guard.
#[derive(Debug)]
pub struct WorldDefinition {
    pub prefix: Vec<Token>,
    pub visibility: Option<String>,
    pub name: String,
    pub cucumber: SymbolPath,
    pub thirtyfour: SymbolPath,
    pub fields: Vec<FieldDef>,
    pub accessors: Vec<String>,
    pub include_concurrency_guard: bool,
}

/// The five documented fields, in order: the driver handle, the driver URL,
/// the host URL, the headless flag, and the window size.
pub open spec fn world_fields_wf(fs: Seq<FieldDef>) -> bool {
    &&& fs.len() == 5
    &&& fs[0].name@ == "driver"@ && fs[0].ty is DriverHandle
    &&& fs[1].name@ == "driver_url"@ && fs[1].ty is Text
    &&& fs[2].name@ == "host_url"@ && fs[2].ty is Text
    &&& fs[3].name@ == "headless"@ && fs[3].ty is Flag
    &&& fs[4].name@ == "window_size"@ && fs[4].ty is Dimensions
}

/// The documented reader methods, one per field.
pub open spec fn world_accessors_wf(a: Seq<Seq<char>>) -> bool {
    a == seq!["driver"@, "driver_url"@, "host_url"@, "headless"@, "window_size"@]
}

/// Combines the parsed options and the matched declaration into the world
/// definition: the declaration supplies prefix, visibility and name; the
/// options supply the library paths and the guard switch; the fields and
/// readers are the documented ones.
pub fn synthesize(options: WorlderArgs, decl: ParsedDeclaration) -> (r: WorldDefinition)
    ensures
        r.prefix@ == decl.prefix@,
        r.visibility == decl.visibility,
        r.name@ == decl.name@,
        r.cucumber == options.cucumber,
        r.thirtyfour == options.thirtyfour,
        r.include_concurrency_guard == options.check_concurrency_cli_option_when_firefox,
        world_fields_wf(r.fields@),
        world_accessors_wf(r.accessors.deep_view()),
{
    let mut fields: Vec<FieldDef> = Vec::new();
    fields.push(FieldDef { name: String::from_str("driver"), ty: FieldType::DriverHandle });
    fields.push(FieldDef { name: String::from_str("driver_url"), ty: FieldType::Text });
    fields.push(FieldDef { name: String::from_str("host_url"), ty: FieldType::Text });
    fields.push(FieldDef { name: String::from_str("headless"), ty: FieldType::Flag });
    fields.push(FieldDef { name: String::from_str("window_size"), ty: FieldType::Dimensions });
    let mut accessors: Vec<String> = Vec::new();
    accessors.push(String::from_str("driver"));
    accessors.push(String::from_str("driver_url"));
    accessors.push(String::from_str("host_url"));
    accessors.push(String::from_str("headless"));
    accessors.push(String::from_str("window_size"));
    proof {
        assert(accessors.deep_view() =~= seq![
            "driver"@,
            "driver_url"@,
            "host_url"@,
            "headless"@,
            "window_size"@,
        ]);
    }
    WorldDefinition {
        prefix: decl.prefix,
        visibility: decl.visibility,
        name: decl.name,
        cucumber: options.cucumber,
        thirtyfour: options.thirtyfour,
        fields,
        accessors,
        include_concurrency_guard: options.check_concurrency_cli_option_when_firefox,
    }
}

/// Why a generation attempt was aborted.
#[derive(Debug)]
pub enum GenerationError {
    /// The annotated item fit neither accepted declaration shape.
    Shape(ShapeError),
    /// The configuration-option list was rejected.
    Config(ConfigError),
}

/// The parsed options woven into a definition: the guard switch and both
/// library paths carried over.
pub open spec fn definition_uses_options(d: WorldDefinition, m: ArgsModel) -> bool {
    &&& d.include_concurrency_guard == m.guard
    &&& path_match(d.cucumber, m.cucumber)
    &&& path_match(d.thirtyfour, m.thirtyfour)
}

/// The whole transformation: an empty annotated item is rejected first, then
/// the option list is parsed, then the declaration is matched, and the two
/// results are combined into the world definition.
pub fn worlder(args: &Vec<Token>, item: Vec<Token>) -> (r: Result<
    WorldDefinition,
    GenerationError,
>)
    ensures
        item@.len() == 0 ==> (r matches Err(e) && e matches GenerationError::Shape(s) && s
            == ShapeError::EmptyDeclaration),
        item@.len() > 0 ==> {
            let cres = spec_parse_args(args@, default_args_model());
            if cres is Err {
                r matches Err(e) && e matches GenerationError::Config(c) && config_error_matches(
                    c,
                    cres->Err_0,
                )
            } else if !decl_matches(item@) {
                r matches Err(e) && e matches GenerationError::Shape(s) && s
                    == ShapeError::UnrecognizedShape
            } else {
                r matches Ok(d) && {
                    &&& d.prefix@ == item@.take(prefix_len(item@))
                    &&& d.name@ == decl_name(item@)
                    &&& (shape_with_vis(rest_of(item@)) ==> (d.visibility matches Some(v) && v@
                        == "pub"@))
                    &&& (!shape_with_vis(rest_of(item@)) ==> d.visibility is None)
                    &&& definition_uses_options(d, cres->Ok_0)
                    &&& world_fields_wf(d.fields@)
                    &&& world_accessors_wf(d.accessors.deep_view())
                }
            }
        },
{
    if item.len() == 0 {
        return Err(GenerationError::Shape(ShapeError::EmptyDeclaration));
    }
    let options = match parse_worlder_args(args) {
        Ok(a) => a,
        Err(e) => {
            return Err(GenerationError::Config(e));
        },
    };
    let decl = match parse_declaration(item) {
        Ok(d) => d,
        Err(e) => {
            return Err(GenerationError::Shape(e));
        },
    };
    Ok(synthesize(options, decl))
}

} // verus!
