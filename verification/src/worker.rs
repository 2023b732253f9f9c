//! The capability description a dispatcher queries before scheduling a job:
//! a name, a description, a version, and the declared parameter schema.

use vstd::prelude::*;
use vstd::string::StringExecFns;

verus! {

/// The type a declared parameter accepts.
#[derive(Clone, Copy, PartialEq, Eq, Structural, Debug)]
pub enum ParameterKind {
    Text,
    TextList,
    Flag,
}

/// One declared parameter of the job schema.
pub struct Parameter {
    pub identifier: String,
    pub label: String,
    pub kind: Vec<ParameterKind>,
    pub required: bool,
}

/// The mathematical shape of a `Parameter`.
pub struct ParameterV {
    pub identifier: Seq<char>,
    pub label: Seq<char>,
    pub kind: Seq<ParameterKind>,
    pub required: bool,
}

impl View for Parameter {
    type V = ParameterV;

    open spec fn view(&self) -> ParameterV {
        ParameterV {
            identifier: self.identifier@,
            label: self.label@,
            kind: self.kind@,
            required: self.required,
        }
    }
}

/// The views of a sequence of declared parameters.
pub open spec fn parameter_views(v: Seq<Parameter>) -> Seq<ParameterV> {
    v.map_values(|p: Parameter| p@)
}

/// One declared text parameter.
pub open spec fn text_parameter(id: Seq<char>, label: Seq<char>, required: bool) -> ParameterV {
    ParameterV { identifier: id, label, kind: seq![ParameterKind::Text], required }
}

/// The declared schema: the filter and its mode, the sources, the
/// destination, the aggregate flag and the output format.
pub open spec fn declared_parameters() -> Seq<ParameterV> {
    seq![
        text_parameter("template"@, "Template"@, true),
        text_parameter("template_mode"@, "Template mode"@, false),
        text_parameter("source_path"@, "Source path"@, false),
        ParameterV {
            identifier: "source_paths"@,
            label: "Source paths"@,
            kind: seq![ParameterKind::TextList],
            required: false,
        },
        text_parameter("destination_path"@, "Destination path"@, true),
        ParameterV {
            identifier: "slurp"@,
            label: "Slurp"@,
            kind: seq![ParameterKind::Flag],
            required: false,
        },
        text_parameter("output_mode"@, "Output mode"@, false),
    ]
}

fn make_parameter(identifier: &str, label: &str, kind: ParameterKind, required: bool) -> (r:
    Parameter)
    ensures
        (r@ == ParameterV {
            identifier: identifier@,
            label: label@,
            kind: seq![kind],
            required,
        }),
{
    let mut kinds: Vec<ParameterKind> = Vec::new();
    kinds.push(kind);
    proof {
        assert(kinds@ =~= seq![kind]);
    }
    Parameter {
        identifier: String::from_str(identifier),
        label: String::from_str(label),
        kind: kinds,
        required,
    }
}

/// The worker that performs the transformation, as the dispatcher sees it.
pub struct JsonTransformEvent {}

impl JsonTransformEvent {
    /// The worker's name.
    pub fn get_name(&self) -> (r: String)
        ensures
            r@ == "Json transform"@,
    {
        String::from_str("Json transform")
    }

    /// The worker's one-line description.
    pub fn get_short_description(&self) -> (r: String)
        ensures
            r@ == "Transform json file(s) into another json based on template"@,
    {
        String::from_str("Transform json file(s) into another json based on template")
    }

    /// The worker's full description.
    pub fn get_description(&self) -> (r: String)
        ensures
            r@ == "This worker enables the transformation of a json into an another json.\nThe template is based on jq syntax to provide a very generic transformation tool.\nInput can be a single file to generate one transformed file.\nIn case of multiple files is passed, a merged can be performed."@,
    {
        String::from_str(
            "This worker enables the transformation of a json into an another json.\nThe template is based on jq syntax to provide a very generic transformation tool.\nInput can be a single file to generate one transformed file.\nIn case of multiple files is passed, a merged can be performed.",
        )
    }

    /// The worker's version.
    pub fn get_version(&self) -> (r: String)
        ensures
            r@ == "0.1.0"@,
    {
        String::from_str("0.1.0")
    }

    /// The declared parameter schema, as `declared_parameters` states.
    pub fn get_parameters(&self) -> (r: Vec<Parameter>)
        ensures
            parameter_views(r@) == declared_parameters(),
    {
        let mut v: Vec<Parameter> = Vec::new();
        v.push(make_parameter("template", "Template", ParameterKind::Text, true));
        v.push(make_parameter("template_mode", "Template mode", ParameterKind::Text, false));
        v.push(make_parameter("source_path", "Source path", ParameterKind::Text, false));
        v.push(make_parameter("source_paths", "Source paths", ParameterKind::TextList, false));
        v.push(
            make_parameter("destination_path", "Destination path", ParameterKind::Text, true),
        );
        v.push(make_parameter("slurp", "Slurp", ParameterKind::Flag, false));
        v.push(make_parameter("output_mode", "Output mode", ParameterKind::Text, false));
        proof {
            assert(parameter_views(v@) =~= declared_parameters());
        }
        v
    }
}

} // verus!
