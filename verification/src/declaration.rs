//! Function declarations, and the record that both stubs are built from.

use vstd::prelude::*;

verus! {

/// What kind of item a declaration is.
#[derive(Clone, Copy, Debug, PartialEq, Eq)]
pub enum Form {
    /// A function with a name, a parameter list and at most a visibility and
    /// `unsafe` in front.
    Plain,
    /// Anything else: a function that is generic, variadic, `const`, `async`
    /// or has an ABI of its own, or an item that is no function.
    Other,
}

/// How an argument reaches the callee.
#[derive(Clone, Copy, Debug, PartialEq, Eq)]
pub enum Passing {
    /// By value, as a scalar or as a type that is laid out as one.
    Scalar,
    /// Behind a reference or a pointer.
    Indirect,
    /// By value, as something that no machine word holds.
    Composite,
}

/// One parameter of a declaration.
#[derive(Clone, Debug, PartialEq, Eq)]
pub struct Parameter {
    /// The parameter as it was written, pattern and type.
    pub text: String,
    /// Its name, where its pattern is a single name.
    pub name: Option<String>,
    /// How its argument is passed.
    pub passing: Passing,
}

/// The model of a [`Parameter`].
pub struct ParameterView {
    pub text: Seq<char>,
    pub name: Option<Seq<char>>,
    pub passing: Passing,
}

impl View for Parameter {
    type V = ParameterView;

    open spec fn view(&self) -> ParameterView {
        ParameterView {
            text: self.text@,
            name: match self.name {
                Some(n) => Some(n@),
                None => None,
            },
            passing: self.passing,
        }
    }
}

/// A function declaration as it was written.
#[derive(Clone, Debug, PartialEq, Eq)]
pub struct Declaration {
    /// What kind of item this is.
    pub form: Form,
    /// What stands before `fn`: visibility and `unsafe`, possibly nothing.
    pub qualifiers: String,
    /// The function's name.
    pub name: String,
    /// The parameters, in order.
    pub params: Vec<Parameter>,
    /// The return type, where one is written.
    pub ret: Option<String>,
}

/// The model of a [`Declaration`].
pub struct DeclarationView {
    pub form: Form,
    pub qualifiers: Seq<char>,
    pub name: Seq<char>,
    pub params: Seq<ParameterView>,
    pub ret: Option<Seq<char>>,
}

impl View for Declaration {
    type V = DeclarationView;

    open spec fn view(&self) -> DeclarationView {
        DeclarationView {
            form: self.form,
            qualifiers: self.qualifiers@,
            name: self.name@,
            params: Seq::new(self.params@.len(), |i: int| self.params@[i]@),
            ret: match self.ret {
                Some(r) => Some(r@),
                None => None,
            },
        }
    }
}

/// Why a declaration is not taken.
#[derive(Clone, Copy, Debug, PartialEq, Eq)]
pub enum MalformedDeclaration {
    /// The item is no plain function.
    NotPlainFunction,
    /// The parameter at `index` has no name of its own.
    UnnamedParameter { index: usize },
    /// The parameter at `index` is not passed by value as a scalar.
    UnforwardableParameter { index: usize },
    /// No return type is written.
    NoReturnType,
}

/// What both stubs need of a declaration.
#[derive(Clone, Debug, PartialEq, Eq)]
pub struct Record {
    /// What stands before `fn`.
    pub qualifiers: String,
    /// The function's name, which the narrow entry point shares.
    pub name: String,
    /// The parameters as they were written, in order.
    pub params: Vec<String>,
    /// The parameters' names, in order.
    pub arg_names: Vec<String>,
    /// The return type.
    pub ret: String,
}

/// The model of a [`Record`].
pub struct RecordView {
    pub qualifiers: Seq<char>,
    pub name: Seq<char>,
    pub params: Seq<Seq<char>>,
    pub arg_names: Seq<Seq<char>>,
    pub ret: Seq<char>,
}

impl View for Record {
    type V = RecordView;

    open spec fn view(&self) -> RecordView {
        RecordView {
            qualifiers: self.qualifiers@,
            name: self.name@,
            params: self.params.deep_view(),
            arg_names: self.arg_names.deep_view(),
            ret: self.ret@,
        }
    }
}

/// A parameter that can be forwarded: it has a name and is passed by value
/// as a scalar.
pub open spec fn forwardable(p: ParameterView) -> bool {
    p.name is Some && p.passing == Passing::Scalar
}

/// The parameters before `n` can all be forwarded.
pub open spec fn forwardable_before(params: Seq<ParameterView>, n: int) -> bool {
    forall|j: int| 0 <= j < n && j < params.len() ==> forwardable(#[trigger] params[j])
}

/// The declarations that stubs are made for.
pub open spec fn supported(d: DeclarationView) -> bool {
    &&& d.form == Form::Plain
    &&& forwardable_before(d.params, d.params.len() as int)
    &&& d.ret is Some
}

/// The record of a supported declaration.
pub open spec fn record_of(d: DeclarationView) -> RecordView
    recommends
        supported(d),
{
    RecordView {
        qualifiers: d.qualifiers,
        name: d.name,
        params: Seq::new(d.params.len(), |i: int| d.params[i].text),
        arg_names: Seq::new(d.params.len(), |i: int| d.params[i].name->0),
        ret: d.ret->0,
    }
}

/// Whether `fault` is the reason for which `d` is turned down: the first
/// check that fails, where the form is checked first, then each parameter in
/// order (its name before its passing), then the return type.
pub open spec fn turned_down(d: DeclarationView, fault: MalformedDeclaration) -> bool {
    match fault {
        MalformedDeclaration::NotPlainFunction => d.form != Form::Plain,
        MalformedDeclaration::UnnamedParameter { index } => {
            &&& d.form == Form::Plain
            &&& index < d.params.len()
            &&& forwardable_before(d.params, index as int)
            &&& d.params[index as int].name is None
        },
        MalformedDeclaration::UnforwardableParameter { index } => {
            &&& d.form == Form::Plain
            &&& index < d.params.len()
            &&& forwardable_before(d.params, index as int)
            &&& d.params[index as int].name is Some
            &&& d.params[index as int].passing != Passing::Scalar
        },
        MalformedDeclaration::NoReturnType => {
            &&& d.form == Form::Plain
            &&& forwardable_before(d.params, d.params.len() as int)
            &&& d.ret is None
        },
    }
}

/// Checks a declaration and draws from it what the stubs are built from.
///
/// A declaration is taken when it is a plain function, each parameter has a
/// name and is passed by value as a scalar, and a return type is written.
/// Any other is turned down, with the first check that it fails.
pub fn transform(decl: &Declaration) -> (r: Result<Record, MalformedDeclaration>)
    ensures
        match r {
            Ok(record) => supported(decl@) && record@ == record_of(decl@),
            Err(fault) => !supported(decl@) && turned_down(decl@, fault),
        },
{
    match decl.form {
        Form::Plain => {},
        Form::Other => {
            return Err(MalformedDeclaration::NotPlainFunction);
        },
    }
    let mut params: Vec<String> = Vec::new();
    let mut arg_names: Vec<String> = Vec::new();
    let mut i: usize = 0;
    while i < decl.params.len()
        invariant
            i <= decl.params.len(),
            decl.form == Form::Plain,
            forwardable_before(decl@.params, i as int),
            params.len() == i,
            arg_names.len() == i,
            forall|j: int| 0 <= j < i ==> (#[trigger] params@[j])@ == decl@.params[j].text,
            forall|j: int| 0 <= j < i ==> (#[trigger] arg_names@[j])@ == decl@.params[j].name->0,
        decreases decl.params.len() - i,
    {
        let p = &decl.params[i];
        assert(decl@.params[i as int] == p@);
        match &p.name {
            None => {
                return Err(MalformedDeclaration::UnnamedParameter { index: i });
            },
            Some(name) => {
                match p.passing {
                    Passing::Scalar => {
                        params.push(p.text.clone());
                        arg_names.push(name.clone());
                    },
                    _ => {
                        return Err(MalformedDeclaration::UnforwardableParameter { index: i });
                    },
                }
            },
        }
        i += 1;
    }
    match &decl.ret {
        None => Err(MalformedDeclaration::NoReturnType),
        Some(ret) => {
            let record = Record {
                qualifiers: decl.qualifiers.clone(),
                name: decl.name.clone(),
                params,
                arg_names,
                ret: ret.clone(),
            };
            assert(record@.params =~= record_of(decl@).params);
            assert(record@.arg_names =~= record_of(decl@).arg_names);
            Ok(record)
        },
    }
}

} // verus!
