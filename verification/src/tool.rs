//! Tool schemas and the builders that assemble them.
//!
//! A [`Tool`] describes one function the model may ask the caller to run:
//! its name, an optional description and an optional parameter object. The
//! fluent [`ToolBuilder`] and [`ParameterBuilder`] assemble such schemas;
//! every configuration step consumes the builder and returns the extended
//! one, and `build` produces the final value.

use vstd::prelude::*;

verus! {

// ---------------------------------------------------------------------------
// Wire-shape schema types
// ---------------------------------------------------------------------------

/// A tool the model may request; tagged `function` on the wire.
#[derive(Clone, Debug, PartialEq, Eq)]
pub enum Tool {
    Function(Function),
}

/// The schema of one callable function.
#[derive(Clone, Debug, PartialEq, Eq)]
pub struct Function {
    pub name: String,
    pub description: Option<String>,
    pub parameters: Option<Parameters>,
}

/// The parameter object of a function schema; its `type_` is always the
/// literal `object` on the wire.
#[derive(Clone, Debug, PartialEq, Eq)]
pub struct Parameters {
    pub type_: String,
    pub properties: Option<Vec<Property>>,
    pub required: Option<Vec<String>>,
}

/// One declared parameter inside a parameter object.
#[derive(Clone, Debug, PartialEq, Eq)]
pub struct Property {
    pub type_: String,
    pub name: String,
    pub description: Option<String>,
    pub enum_: Option<Vec<String>>,
}

/// The types a parameter can have.
#[derive(Clone, Debug)]
pub enum ParameterType {
    String,
    Boolean,
    Number,
}

// ---------------------------------------------------------------------------
// Mathematical models
// ---------------------------------------------------------------------------

/// Model of a [`Property`]: every string as its character sequence.
pub struct PropertyView {
    pub type_: Seq<char>,
    pub name: Seq<char>,
    pub description: Option<Seq<char>>,
    pub enum_: Option<Seq<Seq<char>>>,
}

/// Model of a [`Parameters`] object.
pub struct ParametersView {
    pub type_: Seq<char>,
    pub properties: Option<Seq<PropertyView>>,
    pub required: Option<Seq<Seq<char>>>,
}

/// Model of a [`Function`] schema.
pub struct FunctionView {
    pub name: Seq<char>,
    pub description: Option<Seq<char>>,
    pub parameters: Option<ParametersView>,
}

/// Model of a [`Tool`].
pub enum ToolView {
    Function(FunctionView),
}

impl DeepView for Property {
    type V = PropertyView;

    open spec fn deep_view(&self) -> PropertyView {
        PropertyView {
            type_: self.type_@,
            name: self.name@,
            description: self.description.deep_view(),
            enum_: self.enum_.deep_view(),
        }
    }
}

impl DeepView for Parameters {
    type V = ParametersView;

    open spec fn deep_view(&self) -> ParametersView {
        ParametersView {
            type_: self.type_@,
            properties: self.properties.deep_view(),
            required: self.required.deep_view(),
        }
    }
}

impl DeepView for Function {
    type V = FunctionView;

    open spec fn deep_view(&self) -> FunctionView {
        FunctionView {
            name: self.name@,
            description: self.description.deep_view(),
            parameters: self.parameters.deep_view(),
        }
    }
}

impl DeepView for Tool {
    type V = ToolView;

    open spec fn deep_view(&self) -> ToolView {
        match self {
            Tool::Function(f) => ToolView::Function(f.deep_view()),
        }
    }
}

/// The wire identifier of a parameter type.
pub open spec fn type_text(t: ParameterType) -> Seq<char> {
    match t {
        ParameterType::String => "string"@,
        ParameterType::Boolean => "boolean"@,
        ParameterType::Number => "number"@,
    }
}

impl ParameterType {
    /// The identifier under which the wire format knows this type.
    pub fn as_str(&self) -> (r: &'static str)
        ensures
            r@ == type_text(*self),
    {
        match self {
            ParameterType::String => "string",
            ParameterType::Boolean => "boolean",
            ParameterType::Number => "number",
        }
    }
}

// ---------------------------------------------------------------------------
// Parameter builder
// ---------------------------------------------------------------------------

/// Builder for one parameter of a function tool.
#[derive(Clone, Debug)]
pub struct ParameterBuilder {
    name: String,
    type_: ParameterType,
    description: Option<String>,
    required: bool,
    enum_values: Option<Vec<String>>,
}

/// Model of a [`ParameterBuilder`].
pub struct ParameterBuilderView {
    pub name: Seq<char>,
    pub type_: ParameterType,
    pub description: Option<Seq<char>>,
    pub required: bool,
    pub enum_values: Option<Seq<Seq<char>>>,
}

impl DeepView for ParameterBuilder {
    type V = ParameterBuilderView;

    closed spec fn deep_view(&self) -> ParameterBuilderView {
        ParameterBuilderView {
            name: self.name@,
            type_: self.type_,
            description: self.description.deep_view(),
            required: self.required,
            enum_values: self.enum_values.deep_view(),
        }
    }
}

/// The property that one parameter declaration turns into.
pub open spec fn declared_property(p: ParameterBuilderView) -> PropertyView {
    PropertyView {
        type_: type_text(p.type_),
        name: p.name,
        description: p.description,
        enum_: p.enum_values,
    }
}

/// The ordered property list that a sequence of parameter declarations turns
/// into.
pub open spec fn declared_properties(params: Seq<ParameterBuilderView>) -> Seq<PropertyView> {
    params.map_values(|p: ParameterBuilderView| declared_property(p))
}

/// The names of the declared parameters that were marked required, in
/// declaration order.
pub open spec fn required_names(params: Seq<ParameterBuilderView>) -> Seq<Seq<char>>
    decreases params.len(),
{
    if params.len() == 0 {
        Seq::empty()
    } else {
        let rest = required_names(params.drop_last());
        if params.last().required {
            rest.push(params.last().name)
        } else {
            rest
        }
    }
}

impl ParameterBuilder {
    /// Creates a parameter declaration with a name and a type; it starts
    /// without a description, not required and without enum values.
    pub fn new(name: &str, type_: ParameterType) -> (r: Self)
        ensures
            r.deep_view() == (ParameterBuilderView {
                name: name@,
                type_: type_,
                description: None,
                required: false,
                enum_values: None,
            }),
    {
        ParameterBuilder {
            name: name.to_owned(),
            type_,
            description: None,
            required: false,
            enum_values: None,
        }
    }

    /// Adds a description to the parameter.
    pub fn with_description(self, description: &str) -> (r: Self)
        ensures
            r.deep_view() == (ParameterBuilderView {
                description: Some(description@),
                ..self.deep_view()
            }),
    {
        ParameterBuilder { description: Some(description.to_owned()), ..self }
    }

    /// Marks the parameter as required.
    pub fn is_required(self) -> (r: Self)
        ensures
            r.deep_view() == (ParameterBuilderView { required: true, ..self.deep_view() }),
    {
        ParameterBuilder { required: true, ..self }
    }

    /// Supplies the allowed values of the parameter; they are kept in the
    /// order given.
    pub fn with_enum_values(self, values: Vec<String>) -> (r: Self)
        ensures
            r.deep_view() == (ParameterBuilderView {
                enum_values: Some(values.deep_view()),
                ..self.deep_view()
            }),
    {
        ParameterBuilder { enum_values: Some(values), ..self }
    }

    /// Converts the declaration to the property it stands for.
    pub fn to_property(&self) -> (r: Property)
        ensures
            r.deep_view() == declared_property(self.deep_view()),
    {
        Property {
            type_: self.type_.as_str().to_owned(),
            name: self.name.clone(),
            description: clone_string_option(&self.description),
            enum_: clone_strings_option(&self.enum_values),
        }
    }
}

fn clone_string_option(o: &Option<String>) -> (r: Option<String>)
    ensures
        r == *o,
{
    match o {
        Some(s) => Some(s.clone()),
        None => None,
    }
}

fn clone_strings(v: &Vec<String>) -> (r: Vec<String>)
    ensures
        r@ == v@,
{
    let mut out: Vec<String> = Vec::new();
    let mut i: usize = 0;
    while i < v.len()
        invariant
            i <= v@.len(),
            out@ == v@.subrange(0, i as int),
        decreases v@.len() - i,
    {
        out.push(v[i].clone());
        proof {
            assert(v@.subrange(0, i + 1 as int) =~= v@.subrange(0, i as int).push(v@[i as int]));
        }
        i += 1;
    }
    proof {
        assert(v@.subrange(0, v@.len() as int) =~= v@);
    }
    out
}

fn clone_strings_option(o: &Option<Vec<String>>) -> (r: Option<Vec<String>>)
    ensures
        r.deep_view() == o.deep_view(),
{
    match o {
        Some(v) => Some(clone_strings(v)),
        None => None,
    }
}

// ---------------------------------------------------------------------------
// Tool builder
// ---------------------------------------------------------------------------

/// Builder for a function tool.
pub struct ToolBuilder {
    function: Function,
    parameters: Vec<ParameterBuilder>,
}

/// Model of a [`ToolBuilder`].
pub struct ToolBuilderView {
    pub function: FunctionView,
    pub parameters: Seq<ParameterBuilderView>,
}

impl DeepView for ToolBuilder {
    type V = ToolBuilderView;

    closed spec fn deep_view(&self) -> ToolBuilderView {
        ToolBuilderView {
            function: self.function.deep_view(),
            parameters: self.parameters.deep_view(),
        }
    }
}

/// The tool that `build` assembles from a function header and the declared
/// parameters. With no parameters the function's parameter object is absent
/// entirely; otherwise it is tagged `object`, carries every declared
/// property in order, and lists the required names only when there is at
/// least one.
pub open spec fn built_tool(function: FunctionView, params: Seq<ParameterBuilderView>) -> ToolView {
    ToolView::Function(FunctionView {
        name: function.name,
        description: function.description,
        parameters: if params.len() == 0 {
            None
        } else {
            Some(ParametersView {
                type_: "object"@,
                properties: Some(declared_properties(params)),
                required: if required_names(params).len() == 0 {
                    None
                } else {
                    Some(required_names(params))
                },
            })
        },
    })
}

impl ToolBuilder {
    /// The builder never carries an assembled parameter object of its own;
    /// only `build` produces one, from the declared parameters.
    pub closed spec fn wf(&self) -> bool {
        self.function.parameters is None
    }

    /// Creates a tool builder with a function name; it starts without a
    /// description and without parameters.
    pub fn new(name: &str) -> (r: Self)
        ensures
            r.wf(),
            r.deep_view() == (ToolBuilderView {
                function: FunctionView { name: name@, description: None, parameters: None },
                parameters: Seq::empty(),
            }),
    {
        let r = ToolBuilder {
            function: Function { name: name.to_owned(), description: None, parameters: None },
            parameters: Vec::new(),
        };
        proof {
            assert(r.parameters.deep_view() =~= Seq::<ParameterBuilderView>::empty());
        }
        r
    }

    /// Adds a description to the function.
    pub fn with_description(self, description: &str) -> (r: Self)
        ensures
            r.wf() == self.wf(),
            r.deep_view() == (ToolBuilderView {
                function: FunctionView {
                    description: Some(description@),
                    ..self.deep_view().function
                },
                parameters: self.deep_view().parameters,
            }),
    {
        ToolBuilder {
            function: Function { description: Some(description.to_owned()), ..self.function },
            parameters: self.parameters,
        }
    }

    /// Declares one more parameter of the function, after those already
    /// declared.
    pub fn with_parameter(self, parameter: ParameterBuilder) -> (r: Self)
        ensures
            r.wf() == self.wf(),
            r.deep_view() == (ToolBuilderView {
                function: self.deep_view().function,
                parameters: self.deep_view().parameters.push(parameter.deep_view()),
            }),
    {
        let mut parameters = self.parameters;
        let ghost before = parameters.deep_view();
        parameters.push(parameter);
        proof {
            assert(parameters.deep_view() =~= before.push(parameter.deep_view()));
        }
        ToolBuilder { function: self.function, parameters }
    }

    /// Assembles the final tool.
    pub fn build(self) -> (r: Tool)
        requires
            self.wf(),
        ensures
            r.deep_view() == built_tool(self.deep_view().function, self.deep_view().parameters),
    {
        let ToolBuilder { function, parameters } = self;
        let mut function = function;
        let ghost pv: Seq<ParameterBuilderView> = parameters.deep_view();

        if parameters.len() > 0 {
            let mut properties: Vec<Property> = Vec::new();
            let mut required: Vec<String> = Vec::new();
            proof {
                assert(properties.deep_view() =~= declared_properties(pv.subrange(0, 0)));
                assert(required.deep_view() =~= required_names(pv.subrange(0, 0)));
            }
            let mut i: usize = 0;
            while i < parameters.len()
                invariant
                    i <= parameters@.len(),
                    pv == parameters.deep_view(),
                    properties.deep_view() == declared_properties(pv.subrange(0, i as int)),
                    required.deep_view() == required_names(pv.subrange(0, i as int)),
                decreases parameters@.len() - i,
            {
                let ghost properties_before = properties.deep_view();
                let ghost required_before = required.deep_view();
                let p = &parameters[i];
                properties.push(p.to_property());
                if p.required {
                    required.push(p.name.clone());
                }
                proof {
                    let prefix = pv.subrange(0, i as int);
                    let extended = pv.subrange(0, i + 1 as int);
                    assert(extended.drop_last() =~= prefix);
                    assert(properties.deep_view() =~= properties_before.push(
                        declared_property(pv[i as int]),
                    ));
                    assert(declared_properties(extended) =~= declared_properties(prefix).push(
                        declared_property(pv[i as int]),
                    ));
                    if p.required {
                        assert(required.deep_view() =~= required_before.push(pv[i as int].name));
                    }
                }
                i += 1;
            }
            proof {
                assert(pv.subrange(0, parameters@.len() as int) =~= pv);
            }
            let no_required = required.len() == 0;
            function.parameters = Some(
                Parameters {
                    type_: "object".to_owned(),
                    properties: Some(properties),
                    required: if no_required {
                        None
                    } else {
                        Some(required)
                    },
                },
            );
        }
        Tool::Function(function)
    }
}

// ---------------------------------------------------------------------------
// Laws of the assembled schema
// ---------------------------------------------------------------------------

/// Law: with no declared parameters the built function's parameter object is
/// absent entirely; with at least one it is present, tagged `object`, and
/// carries exactly the declared properties in order.
pub proof fn lemma_parameters_presence(function: FunctionView, params: Seq<ParameterBuilderView>)
    ensures
        built_tool(function, params) matches ToolView::Function(f) && (if params.len() == 0 {
            f.parameters is None
        } else {
            {
                &&& f.parameters matches Some(ps)
                &&& ps.type_ == "object"@
                &&& ps.properties matches Some(props)
                &&& props == declared_properties(params)
            }
        }),
{
}

/// Law: the built schema's `required` list is present exactly when at least
/// one declared parameter was marked required, is then nonempty, and holds
/// the required names in declaration order; otherwise it is absent entirely.
pub proof fn lemma_required_presence(function: FunctionView, params: Seq<ParameterBuilderView>)
    requires
        params.len() > 0,
    ensures
        ({
            &&& built_tool(function, params) matches ToolView::Function(f)
            &&& f.parameters matches Some(ps)
            &&& (ps.required is Some) <==> exists|i: int|
                0 <= i < params.len() && params[i].required
            &&& ps.required matches Some(req) ==> req.len() > 0 && req == required_names(params)
        }),
{
    lemma_required_nonempty_iff(params);
}

/// Law: `required_names` yields a name exactly when some declared parameter
/// was marked required.
pub proof fn lemma_required_nonempty_iff(params: Seq<ParameterBuilderView>)
    ensures
        required_names(params).len() > 0 <==> exists|i: int|
            0 <= i < params.len() && params[i].required,
    decreases params.len(),
{
    if params.len() > 0 {
        lemma_required_nonempty_iff(params.drop_last());
        let prefix = params.drop_last();
        if params.last().required {
            assert(params[params.len() - 1].required);
        } else {
            assert forall|i: int| 0 <= i < params.len() && params[i].required implies exists|j: int|
                0 <= j < prefix.len() && prefix[j].required by {
                assert(prefix[i] == params[i]);
            }
        }
    }
}

/// Law: every name the built schema marks required references a property
/// present in the same schema's property list.
pub proof fn lemma_required_names_are_declared(params: Seq<ParameterBuilderView>, i: int)
    requires
        0 <= i < required_names(params).len(),
    ensures
        exists|j: int|
            0 <= j < declared_properties(params).len() && declared_properties(params)[j].name
                == required_names(params)[i],
    decreases params.len(),
{
    let prefix = params.drop_last();
    if i < required_names(prefix).len() {
        lemma_required_names_are_declared(prefix, i);
        let j = choose|j: int|
            0 <= j < declared_properties(prefix).len() && declared_properties(prefix)[j].name
                == required_names(prefix)[i];
        assert(declared_properties(params)[j].name == required_names(params)[i]);
    } else {
        assert(params.last().required);
        let last = params.len() - 1;
        assert(declared_properties(params)[last].name == required_names(params)[i]);
    }
}

/// Law: enum values supplied for a parameter reappear unchanged, and in the
/// order given, in the built schema's property list.
pub proof fn lemma_enum_values_round_trip(
    function: FunctionView,
    params: Seq<ParameterBuilderView>,
    i: int,
)
    requires
        0 <= i < params.len(),
    ensures
        ({
            &&& built_tool(function, params) matches ToolView::Function(f)
            &&& f.parameters matches Some(ps)
            &&& ps.properties matches Some(props)
            &&& props[i].enum_ == params[i].enum_values
        }),
{
}

} // verus!
