//! Tool and function calling types.

use vstd::prelude::*;

use crate::json::JsonValue;

verus! {

/// A tool that can be called by the model.
#[derive(Debug, Clone)]
pub struct Tool {
    /// The type of the tool (always "function" for now).
    pub tool_type: String,
    /// The function definition.
    pub function: ToolFunction,
}

/// Builder for creating tools.
#[derive(Debug)]
pub struct ToolBuilder {
    name: String,
    description: String,
    parameters: Option<JsonValue>,
}

/// A function that can be called.
#[derive(Debug, Clone)]
pub struct ToolFunction {
    /// The name of the function.
    pub name: String,
    /// A description of what the function does.
    pub description: Option<String>,
    /// The parameters the function accepts (JSON Schema).
    pub parameters: Option<JsonValue>,
}

/// A tool call made by the model.
#[derive(Debug, Clone)]
pub struct ToolCall {
    /// The unique ID of this tool call.
    pub id: String,
    /// The type of the tool (always "function" for now).
    pub tool_type: String,
    /// The function call details.
    pub function: Function,
}

/// A function call with name and arguments.
#[derive(Debug, Clone)]
pub struct Function {
    /// The name of the function to call.
    pub name: String,
    /// The arguments to pass to the function (JSON string).
    pub arguments: String,
}

/// A partial tool call delta for streaming.
#[derive(Debug, Clone)]
pub struct ToolCallDelta {
    /// The index of this tool call in the list.
    pub index: Option<u32>,
    /// The unique ID of this tool call (only in the first chunk).
    pub id: Option<String>,
    /// The type of the tool (only in the first chunk).
    pub tool_type: Option<String>,
    /// The function call details (partial).
    pub function: Option<FunctionDelta>,
}

/// A partial function call delta for streaming.
#[derive(Debug, Clone)]
pub struct FunctionDelta {
    /// The name of the function (only in the first chunk).
    pub name: Option<String>,
    /// Partial arguments string.
    pub arguments: Option<String>,
}

/// How the model should choose which tool to use.
#[derive(Debug, Clone)]
pub enum ToolChoice {
    /// Let the model decide - "none", "auto", or "required".
    Mode(String),
    /// Force a specific function.
    Function { choice_type: String, function: ToolChoiceFunction },
}

/// A specific function to force the model to use.
#[derive(Debug, Clone)]
pub struct ToolChoiceFunction {
    /// The name of the function to call.
    pub name: String,
}

/// The text "function", the only tool type.
pub open spec fn function_type() -> Seq<char> {
    "function"@
}

impl Tool {
    /// Start building a function tool.
    pub fn function(name: &str, description: &str) -> (r: ToolBuilder)
        ensures
            r.spec_name() == name@,
            r.spec_description() == description@,
            r.spec_parameters() is None,
    {
        ToolBuilder {
            name: String::from_str(name),
            description: String::from_str(description),
            parameters: None,
        }
    }
}

impl ToolBuilder {
    /// The name given to the builder.
    pub closed spec fn spec_name(&self) -> Seq<char> {
        self.name@
    }

    /// The description given to the builder.
    pub closed spec fn spec_description(&self) -> Seq<char> {
        self.description@
    }

    /// The parameters schema given to the builder, if any.
    pub closed spec fn spec_parameters(&self) -> Option<JsonValue> {
        self.parameters
    }

    /// Set the parameters schema for this tool.
    pub fn parameters(self, parameters: JsonValue) -> (r: Self)
        ensures
            r.spec_name() == self.spec_name(),
            r.spec_description() == self.spec_description(),
            r.spec_parameters() == Some(parameters),
    {
        ToolBuilder { parameters: Some(parameters), ..self }
    }

    /// Build the tool.
    pub fn build(self) -> (r: Tool)
        ensures
            r.tool_type@ == function_type(),
            r.function.name@ == self.spec_name(),
            r.function.description matches Some(d) && d@ == self.spec_description(),
            r.function.parameters == self.spec_parameters(),
    {
        Tool {
            tool_type: String::from_str("function"),
            function: ToolFunction {
                name: self.name,
                description: Some(self.description),
                parameters: self.parameters,
            },
        }
    }
}

impl ToolCall {
    /// A function tool call.
    pub fn new(id: &str, name: &str, arguments: &str) -> (r: Self)
        ensures
            r.id@ == id@,
            r.tool_type@ == function_type(),
            r.function.name@ == name@,
            r.function.arguments@ == arguments@,
    {
        ToolCall {
            id: String::from_str(id),
            tool_type: String::from_str("function"),
            function: Function {
                name: String::from_str(name),
                arguments: String::from_str(arguments),
            },
        }
    }
}

impl ToolChoice {
    /// Don't use any tools.
    pub fn none() -> (r: Self)
        ensures
            r matches ToolChoice::Mode(m) && m@ == "none"@,
    {
        ToolChoice::Mode(String::from_str("none"))
    }

    /// Let the model decide whether to use tools.
    pub fn auto() -> (r: Self)
        ensures
            r matches ToolChoice::Mode(m) && m@ == "auto"@,
    {
        ToolChoice::Mode(String::from_str("auto"))
    }

    /// Require the model to use a tool.
    pub fn required() -> (r: Self)
        ensures
            r matches ToolChoice::Mode(m) && m@ == "required"@,
    {
        ToolChoice::Mode(String::from_str("required"))
    }

    /// Force the model to use a specific function.
    pub fn function(name: &str) -> (r: Self)
        ensures
            r matches ToolChoice::Function { choice_type, function } && choice_type@
                == function_type() && function.name@ == name@,
    {
        ToolChoice::Function {
            choice_type: String::from_str("function"),
            function: ToolChoiceFunction { name: String::from_str(name) },
        }
    }

    /// The mode, where this is a mode choice.
    pub fn as_mode(&self) -> (r: Option<&str>)
        ensures
            self matches ToolChoice::Mode(m) ==> r matches Some(s) && s@ == m@,
            self is Function ==> r is None,
    {
        match self {
            ToolChoice::Mode(mode) => Some(mode.as_str()),
            _ => None,
        }
    }

    /// The function name, where this forces a specific function.
    pub fn as_function(&self) -> (r: Option<&str>)
        ensures
            self matches ToolChoice::Function { function, .. } ==> r matches Some(s) && s@
                == function.name@,
            self is Mode ==> r is None,
    {
        match self {
            ToolChoice::Function { function, .. } => Some(function.name.as_str()),
            _ => None,
        }
    }
}

} // verus!
