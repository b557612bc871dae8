//! Declarations: function prototypes and their parameters, init-declarator lists, initializers and
//! interface blocks.

use crate::code::{Code, SpecCode, codes_view, fields2, fields3, fields4, optional_owned_code};
use crate::model::{
    SpecBlock, SpecDeclaration, SpecFunctionParameterDeclaration, SpecFunctionParameterDeclarator,
    SpecFunctionPrototype, SpecInitDeclaratorList, SpecInitializer, SpecSingleDeclaration,
    SpecSingleDeclarationNoType, declarators_view, identifiers_view, initializers_view,
    parameters_view,
};
use crate::names::{Field, Record, Variant};
use crate::quoted::Quoted;
use crate::syntax::{
    Block, Declaration, FunctionParameterDeclaration, FunctionParameterDeclarator,
    FunctionPrototype, Identifier, InitDeclaratorList, Initializer, SingleDeclaration,
    SingleDeclarationNoType,
};
use crate::tokenizer::expr::{
    expr_code, optional_array_specifier_code, tokenize_array_spec, tokenize_expr,
};
use crate::tokenizer::qualifiers::{
    optional_type_qualifier_code, precision_qualifier_code, tokenize_precision_qualifier,
    tokenize_type_qualifier, type_qualifier_code,
};
use crate::tokenizer::types::{
    fully_specified_type_code, optional_arrayed_identifier_code, struct_fields_code,
    tokenize_arrayed_identifier, tokenize_fully_specified_type, tokenize_struct_fields,
    tokenize_type_specifier, type_specifier_code,
};
use vstd::prelude::*;

verus! {

/// The constructor expression of an initializer.
pub open spec fn initializer_code(i: SpecInitializer) -> SpecCode
    decreases i,
{
    match i {
        SpecInitializer::Simple(e) => SpecCode::Call(
            Variant::InitializerSimple,
            seq![SpecCode::boxed(expr_code(*e))],
        ),
        SpecInitializer::List(list) => SpecCode::Call(
            Variant::InitializerList,
            seq![initializers_code(list)],
        ),
    }
}

/// Tokenizes an initializer.
pub fn tokenize_initializer(i: &Initializer) -> (code: Code)
    ensures
        code@ == initializer_code(i@),
    decreases i,
{
    match i {
        Initializer::Simple(e) => {
            let e = Box::new(tokenize_expr(e)).quote();
            Code::call1(Variant::InitializerSimple, e)
        },
        Initializer::List(list) => {
            let list = tokenize_initializers(list);
            Code::call1(Variant::InitializerList, list)
        },
    }
}

/// The constructor expression of a sequence of initializers: a vector of their constructor
/// expressions, as many and in the same order.
pub open spec fn initializers_code(s: Seq<SpecInitializer>) -> SpecCode
    decreases s,
{
    SpecCode::List(
        Seq::new(
            s.len(),
            |i: int|
                if 0 <= i < s.len() {
                    initializer_code(s[i])
                } else {
                    arbitrary()
                },
        ),
    )
}

/// Tokenizes a sequence of initializers, one after the other.
pub fn tokenize_initializers(list: &Vec<Initializer>) -> (code: Code)
    ensures
        code@ == initializers_code(initializers_view(*list)),
    decreases list,
{
    let mut items: Vec<Code> = Vec::new();
    let mut i: usize = 0;
    while i < list.len()
        invariant
            i <= list.len(),
            items@.len() == i,
            forall|j: int|
                0 <= j < i ==> (#[trigger] items@[j])@ == initializer_code(list@[j]@),
        decreases list.len() - i,
    {
        let item = tokenize_initializer(&list[i]);
        items.push(item);
        i += 1;
    }
    assert(codes_view(items) =~= initializers_code(initializers_view(*list))->List_0);
    Code::List(items)
}

/// The constructor expression of an initializer that may be absent.
pub open spec fn optional_initializer_code(o: Option<SpecInitializer>) -> SpecCode {
    SpecCode::optional(
        match o {
            Some(x) => Some(initializer_code(x)),
            None => None,
        },
    )
}

/// The constructor expression of a single declaration.
pub open spec fn single_declaration_code(d: SpecSingleDeclaration) -> SpecCode {
    SpecCode::Record(
        Record::SingleDeclaration,
        seq![
            (Field::Ty, fully_specified_type_code(d.ty)),
            (Field::Name, optional_owned_code(d.name)),
            (Field::ArraySpecifier, optional_array_specifier_code(d.array_specifier)),
            (Field::Initializer, optional_initializer_code(d.initializer)),
        ],
    )
}

/// Tokenizes a single declaration.
pub fn tokenize_single_declaration(d: &SingleDeclaration) -> (code: Code)
    ensures
        code@ == single_declaration_code(d@),
{
    let ty = tokenize_fully_specified_type(&d.ty);
    let name = match &d.name {
        Some(x) => Some(x.as_str().quote()),
        None => None,
    }.quote();
    assert(name@ == optional_owned_code(d@.name));
    let array_specifier = match &d.array_specifier {
        Some(x) => Some(tokenize_array_spec(x)),
        None => None,
    }.quote();
    assert(array_specifier@ == optional_array_specifier_code(d@.array_specifier));
    let initializer = match &d.initializer {
        Some(x) => Some(tokenize_initializer(x)),
        None => None,
    }.quote();
    assert(initializer@ == optional_initializer_code(d@.initializer));
    Code::record(
        Record::SingleDeclaration,
        fields4(
            Field::Ty,
            ty,
            Field::Name,
            name,
            Field::ArraySpecifier,
            array_specifier,
            Field::Initializer,
            initializer,
        ),
    )
}

/// The constructor expression of a declaration without a type.
pub open spec fn single_declaration_no_type_code(d: SpecSingleDeclarationNoType) -> SpecCode {
    SpecCode::Record(
        Record::SingleDeclarationNoType,
        seq![
            (Field::Name, SpecCode::Owned(d.name)),
            (Field::ArraySpecifier, optional_array_specifier_code(d.array_specifier)),
            (Field::Initializer, optional_initializer_code(d.initializer)),
        ],
    )
}

/// Tokenizes a declaration without a type.
pub fn tokenize_single_declaration_no_type(d: &SingleDeclarationNoType) -> (code: Code)
    ensures
        code@ == single_declaration_no_type_code(d@),
{
    let name = d.name.as_str().quote();
    let array_specifier = match &d.array_specifier {
        Some(x) => Some(tokenize_array_spec(x)),
        None => None,
    }.quote();
    assert(array_specifier@ == optional_array_specifier_code(d@.array_specifier));
    let initializer = match &d.initializer {
        Some(x) => Some(tokenize_initializer(x)),
        None => None,
    }.quote();
    assert(initializer@ == optional_initializer_code(d@.initializer));
    Code::record(
        Record::SingleDeclarationNoType,
        fields3(
            Field::Name,
            name,
            Field::ArraySpecifier,
            array_specifier,
            Field::Initializer,
            initializer,
        ),
    )
}

/// The constructor expression of a sequence of declarators: a vector of their constructor
/// expressions, as many and in the same order.
pub open spec fn declarators_code(s: Seq<SpecSingleDeclarationNoType>) -> SpecCode {
    SpecCode::List(
        Seq::new(
            s.len(),
            |i: int|
                if 0 <= i < s.len() {
                    single_declaration_no_type_code(s[i])
                } else {
                    arbitrary()
                },
        ),
    )
}

/// Tokenizes a sequence of declarators, one after the other.
pub fn tokenize_declarators(tail: &Vec<SingleDeclarationNoType>) -> (code: Code)
    ensures
        code@ == declarators_code(declarators_view(*tail)),
{
    let mut items: Vec<Code> = Vec::new();
    let mut i: usize = 0;
    while i < tail.len()
        invariant
            i <= tail.len(),
            items@.len() == i,
            forall|j: int|
                0 <= j < i ==>
                    (#[trigger] items@[j])@ == single_declaration_no_type_code(tail@[j]@),
        decreases tail.len() - i,
    {
        let item = tokenize_single_declaration_no_type(&tail[i]);
        items.push(item);
        i += 1;
    }
    assert(codes_view(items) =~= declarators_code(declarators_view(*tail))->List_0);
    Code::List(items)
}

/// The constructor expression of an init declarator list.
pub open spec fn init_declarator_list_code(i: SpecInitDeclaratorList) -> SpecCode {
    SpecCode::Record(
        Record::InitDeclaratorList,
        seq![
            (Field::Head, single_declaration_code(i.head)),
            (Field::Tail, declarators_code(i.tail)),
        ],
    )
}

/// Tokenizes an init declarator list.
pub fn tokenize_init_declarator_list(i: &InitDeclaratorList) -> (code: Code)
    ensures
        code@ == init_declarator_list_code(i@),
{
    let head = tokenize_single_declaration(&i.head);
    let tail = tokenize_declarators(&i.tail);
    Code::record(Record::InitDeclaratorList, fields2(Field::Head, head, Field::Tail, tail))
}

/// The constructor expression of a function parameter declarator.
pub open spec fn function_parameter_declarator_code(
    p: SpecFunctionParameterDeclarator,
) -> SpecCode {
    SpecCode::Record(
        Record::FunctionParameterDeclarator,
        seq![
            (Field::Ty, type_specifier_code(p.ty)),
            (Field::Name, SpecCode::Owned(p.name)),
            (Field::ArraySpec, optional_array_specifier_code(p.array_spec)),
        ],
    )
}

/// Tokenizes a function parameter declarator.
pub fn tokenize_function_parameter_declarator(p: &FunctionParameterDeclarator) -> (code: Code)
    ensures
        code@ == function_parameter_declarator_code(p@),
{
    let ty = tokenize_type_specifier(&p.ty);
    let name = p.name.as_str().quote();
    let array_spec = match &p.array_spec {
        Some(x) => Some(tokenize_array_spec(x)),
        None => None,
    }.quote();
    assert(array_spec@ == optional_array_specifier_code(p@.array_spec));
    Code::record(
        Record::FunctionParameterDeclarator,
        fields3(
            Field::Ty,
            ty,
            Field::Name,
            name,
            Field::ArraySpec,
            array_spec,
        ),
    )
}

/// The constructor expression of a function parameter declaration.
pub open spec fn function_parameter_declaration_code(
    p: SpecFunctionParameterDeclaration,
) -> SpecCode {
    match p {
        SpecFunctionParameterDeclaration::Named(qual, fpd) => SpecCode::Call(
            Variant::FunctionParameterDeclarationNamed,
            seq![optional_type_qualifier_code(qual), function_parameter_declarator_code(fpd)],
        ),
        SpecFunctionParameterDeclaration::Unnamed(qual, ty) => SpecCode::Call(
            Variant::FunctionParameterDeclarationUnnamed,
            seq![optional_type_qualifier_code(qual), type_specifier_code(ty)],
        ),
    }
}

/// Tokenizes a function parameter declaration.
pub fn tokenize_function_parameter_declaration(p: &FunctionParameterDeclaration) -> (code: Code)
    ensures
        code@ == function_parameter_declaration_code(p@),
{
    match p {
        FunctionParameterDeclaration::Named(qual, fpd) => {
            let qual = match qual {
                Some(x) => Some(tokenize_type_qualifier(x)),
                None => None,
            }.quote();
            assert(qual@ == optional_type_qualifier_code(p@->Named_0));
            let fpd = tokenize_function_parameter_declarator(fpd);
            Code::call2(Variant::FunctionParameterDeclarationNamed, qual, fpd)
        },
        FunctionParameterDeclaration::Unnamed(qual, ty) => {
            let qual = match qual {
                Some(x) => Some(tokenize_type_qualifier(x)),
                None => None,
            }.quote();
            assert(qual@ == optional_type_qualifier_code(p@->Unnamed_0));
            let ty = tokenize_type_specifier(ty);
            Code::call2(Variant::FunctionParameterDeclarationUnnamed, qual, ty)
        },
    }
}

/// The constructor expression of a sequence of parameters: a vector of their constructor
/// expressions, as many and in the same order.
pub open spec fn parameters_code(s: Seq<SpecFunctionParameterDeclaration>) -> SpecCode {
    SpecCode::List(
        Seq::new(
            s.len(),
            |i: int|
                if 0 <= i < s.len() {
                    function_parameter_declaration_code(s[i])
                } else {
                    arbitrary()
                },
        ),
    )
}

/// Tokenizes a sequence of parameters, one after the other.
pub fn tokenize_parameters(parameters: &Vec<FunctionParameterDeclaration>) -> (code: Code)
    ensures
        code@ == parameters_code(parameters_view(*parameters)),
{
    let mut items: Vec<Code> = Vec::new();
    let mut i: usize = 0;
    while i < parameters.len()
        invariant
            i <= parameters.len(),
            items@.len() == i,
            forall|j: int|
                0 <= j < i ==>
                    (#[trigger] items@[j])@ == function_parameter_declaration_code(parameters@[j]@),
        decreases parameters.len() - i,
    {
        let item = tokenize_function_parameter_declaration(&parameters[i]);
        items.push(item);
        i += 1;
    }
    assert(codes_view(items) =~= parameters_code(parameters_view(*parameters))->List_0);
    Code::List(items)
}

/// The constructor expression of a function prototype.
pub open spec fn function_prototype_code(fp: SpecFunctionPrototype) -> SpecCode {
    SpecCode::Record(
        Record::FunctionPrototype,
        seq![
            (Field::Ty, fully_specified_type_code(fp.ty)),
            (Field::Name, SpecCode::Owned(fp.name)),
            (Field::Parameters, parameters_code(fp.parameters)),
        ],
    )
}

/// Tokenizes a function prototype.
pub fn tokenize_function_prototype(fp: &FunctionPrototype) -> (code: Code)
    ensures
        code@ == function_prototype_code(fp@),
{
    let ty = tokenize_fully_specified_type(&fp.ty);
    let name = fp.name.as_str().quote();
    let parameters = tokenize_parameters(&fp.parameters);
    Code::record(
        Record::FunctionPrototype,
        fields3(
            Field::Ty,
            ty,
            Field::Name,
            name,
            Field::Parameters,
            parameters,
        ),
    )
}

/// The constructor expression of a block.
pub open spec fn block_code(b: SpecBlock) -> SpecCode {
    SpecCode::Record(
        Record::Block,
        seq![
            (Field::Qualifier, type_qualifier_code(b.qualifier)),
            (Field::Name, SpecCode::Owned(b.name)),
            (Field::Fields, struct_fields_code(b.fields)),
            (Field::Identifier, optional_arrayed_identifier_code(b.identifier)),
        ],
    )
}

/// Tokenizes a block.
pub fn tokenize_block(b: &Block) -> (code: Code)
    ensures
        code@ == block_code(b@),
{
    let qualifier = tokenize_type_qualifier(&b.qualifier);
    let name = b.name.as_str().quote();
    let fields = tokenize_struct_fields(&b.fields);
    let identifier = match &b.identifier {
        Some(x) => Some(tokenize_arrayed_identifier(&x.0, &x.1)),
        None => None,
    }.quote();
    assert(identifier@ == optional_arrayed_identifier_code(b@.identifier));
    Code::record(
        Record::Block,
        fields4(
            Field::Qualifier,
            qualifier,
            Field::Name,
            name,
            Field::Fields,
            fields,
            Field::Identifier,
            identifier,
        ),
    )
}

/// The constructor expression of a declaration.
pub open spec fn declaration_code(d: SpecDeclaration) -> SpecCode {
    match d {
        SpecDeclaration::FunctionPrototype(proto) => SpecCode::Call(
            Variant::DeclarationFunctionPrototype,
            seq![function_prototype_code(proto)],
        ),
        SpecDeclaration::InitDeclaratorList(list) => SpecCode::Call(
            Variant::DeclarationInitDeclaratorList,
            seq![init_declarator_list_code(list)],
        ),
        SpecDeclaration::Precision(qual, ty) => SpecCode::Call(
            Variant::DeclarationPrecision,
            seq![precision_qualifier_code(qual), type_specifier_code(ty)],
        ),
        SpecDeclaration::Block(block) => SpecCode::Call(
            Variant::DeclarationBlock,
            seq![block_code(block)],
        ),
        SpecDeclaration::Global(qual, identifiers) => SpecCode::Call(
            Variant::DeclarationGlobal,
            seq![type_qualifier_code(qual), identifiers_code(identifiers)],
        ),
    }
}

/// Tokenizes a declaration.
pub fn tokenize_declaration(d: &Declaration) -> (code: Code)
    ensures
        code@ == declaration_code(d@),
{
    match d {
        Declaration::FunctionPrototype(proto) => {
            let proto = tokenize_function_prototype(proto);
            Code::call1(Variant::DeclarationFunctionPrototype, proto)
        },
        Declaration::InitDeclaratorList(list) => {
            let list = tokenize_init_declarator_list(list);
            Code::call1(Variant::DeclarationInitDeclaratorList, list)
        },
        Declaration::Precision(qual, ty) => {
            let qual = tokenize_precision_qualifier(qual);
            let ty = tokenize_type_specifier(ty);
            Code::call2(Variant::DeclarationPrecision, qual, ty)
        },
        Declaration::Block(block) => Code::call1(Variant::DeclarationBlock, tokenize_block(block)),
        Declaration::Global(qual, identifiers) => {
            let qual = tokenize_type_qualifier(qual);
            let identifiers = tokenize_identifiers(identifiers);
            Code::call2(Variant::DeclarationGlobal, qual, identifiers)
        },
    }
}

/// The constructor expression of a sequence of identifiers: a vector of their constructor
/// expressions, as many and in the same order.
pub open spec fn identifiers_code(s: Seq<Seq<char>>) -> SpecCode {
    SpecCode::List(
        Seq::new(
            s.len(),
            |i: int|
                if 0 <= i < s.len() {
                    SpecCode::Name(s[i])
                } else {
                    arbitrary()
                },
        ),
    )
}

/// Tokenizes a sequence of identifiers, one after the other.
pub fn tokenize_identifiers(identifiers: &Vec<Identifier>) -> (code: Code)
    ensures
        code@ == identifiers_code(identifiers_view(*identifiers)),
{
    let mut items: Vec<Code> = Vec::new();
    let mut i: usize = 0;
    while i < identifiers.len()
        invariant
            i <= identifiers.len(),
            items@.len() == i,
            forall|j: int|
                0 <= j < i ==> (#[trigger] items@[j])@ == SpecCode::Name(identifiers@[j]@),
        decreases identifiers.len() - i,
    {
        let item = Code::Name(identifiers[i].clone());
        items.push(item);
        i += 1;
    }
    assert(codes_view(items) =~= identifiers_code(identifiers_view(*identifiers))->List_0);
    Code::List(items)
}

} // verus!
