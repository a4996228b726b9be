//! Methods: their declaration, their annotations and their instructions.

pub mod jimple;
pub mod optimization;
pub mod smali;

use vstd::prelude::*;
use crate::access_flag::AccessFlag;
use crate::annotation::{Annotation, AnnotationView};
use crate::instruction::{Instruction, InstructionView};
use crate::types::{Type, TypeView};

verus! {

#[derive(Debug, PartialEq)]
pub struct MethodParameter {
    pub parameter_type: Type,
    pub annotations: Vec<Annotation>,
}

pub struct MethodParameterView {
    pub parameter_type: TypeView,
    pub annotations: Seq<AnnotationView>,
}

impl View for MethodParameter {
    type V = MethodParameterView;

    open spec fn view(&self) -> MethodParameterView {
        MethodParameterView {
            parameter_type: self.parameter_type@,
            annotations: self.annotations.deep_view(),
        }
    }
}

impl DeepView for MethodParameter {
    type V = MethodParameterView;

    open spec fn deep_view(&self) -> MethodParameterView {
        self@
    }
}

#[derive(Debug, PartialEq)]
pub struct Method {
    pub name: String,
    pub visibility: Vec<AccessFlag>,
    pub parameters: Vec<MethodParameter>,
    pub return_type: Type,
    pub annotations: Vec<Annotation>,
    pub instructions: Vec<Instruction>,
}

pub struct MethodView {
    pub name: Seq<char>,
    pub visibility: Seq<AccessFlag>,
    pub parameters: Seq<MethodParameterView>,
    pub return_type: TypeView,
    pub annotations: Seq<AnnotationView>,
    pub instructions: Seq<InstructionView>,
}

impl View for Method {
    type V = MethodView;

    open spec fn view(&self) -> MethodView {
        MethodView {
            name: self.name@,
            visibility: self.visibility@,
            parameters: self.parameters.deep_view(),
            return_type: self.return_type@,
            annotations: self.annotations.deep_view(),
            instructions: self.instructions.deep_view(),
        }
    }
}

impl DeepView for Method {
    type V = MethodView;

    open spec fn deep_view(&self) -> MethodView {
        self@
    }
}

} // verus!
