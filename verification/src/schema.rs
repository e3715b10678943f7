//! Terraform schemas as plain data: the attributes and nested blocks a
//! provider, resource or data source declares.
use vstd::prelude::*;
use vstd::string::*;
use crate::number::Number;
use crate::values::clone_number;

verus! {

/// The type of an attribute.
#[derive(Clone, Copy, PartialEq, Eq, Structural)]
pub enum AttributeType {
    String,
    Number,
    Bool,
}

/// How a nested block nests.
#[derive(Clone, Copy, PartialEq, Eq, Structural)]
pub enum NestingMode {
    Single,
    List,
}

/// The value an attribute defaults to.
pub enum DefaultValue {
    Text(String),
    Bool(bool),
    Number(Number),
}

/// A declared attribute.
pub struct AttributeSchema {
    pub name: String,
    pub attr_type: AttributeType,
    pub description: String,
    pub required: bool,
    pub optional: bool,
    pub computed: bool,
    pub sensitive: bool,
    pub default: Option<DefaultValue>,
}

/// A declared nested block.
pub struct NestedBlockSchema {
    pub block_name: String,
    pub version: i64,
    pub attributes: Vec<AttributeSchema>,
    pub description: String,
    pub nesting: NestingMode,
    pub min_items: i64,
    pub max_items: i64,
}

/// A schema: its version, description, attributes and nested blocks.
pub struct Schema {
    pub version: i64,
    pub description: String,
    pub attributes: Vec<AttributeSchema>,
    pub blocks: Vec<NestedBlockSchema>,
}

/// A default value as plain values.
pub enum DefaultView {
    Text(Seq<char>),
    Bool(bool),
    Number(u64, Seq<char>),
}

/// An attribute as plain values.
pub struct AttributeView {
    pub name: Seq<char>,
    pub attr_type: AttributeType,
    pub description: Seq<char>,
    pub required: bool,
    pub optional: bool,
    pub computed: bool,
    pub sensitive: bool,
    pub default: Option<DefaultView>,
}

/// A nested block as plain values.
pub struct BlockView {
    pub block_name: Seq<char>,
    pub version: i64,
    pub attributes: Seq<AttributeView>,
    pub description: Seq<char>,
    pub nesting: NestingMode,
    pub min_items: i64,
    pub max_items: i64,
}

/// A schema as plain values.
pub struct SchemaView {
    pub version: i64,
    pub description: Seq<char>,
    pub attributes: Seq<AttributeView>,
    pub blocks: Seq<BlockView>,
}

pub open spec fn default_view(d: DefaultValue) -> DefaultView {
    match d {
        DefaultValue::Text(s) => DefaultView::Text(s@),
        DefaultValue::Bool(b) => DefaultView::Bool(b),
        DefaultValue::Number(n) => DefaultView::Number(n.bits, n.text@),
    }
}

impl View for AttributeSchema {
    type V = AttributeView;

    open spec fn view(&self) -> AttributeView {
        AttributeView {
            name: self.name@,
            attr_type: self.attr_type,
            description: self.description@,
            required: self.required,
            optional: self.optional,
            computed: self.computed,
            sensitive: self.sensitive,
            default: match self.default {
                Some(d) => Some(default_view(d)),
                None => None,
            },
        }
    }
}

/// The views of a sequence of attributes.
pub open spec fn attribute_views(v: Seq<AttributeSchema>) -> Seq<AttributeView> {
    v.map_values(|a: AttributeSchema| a@)
}

impl View for NestedBlockSchema {
    type V = BlockView;

    open spec fn view(&self) -> BlockView {
        BlockView {
            block_name: self.block_name@,
            version: self.version,
            attributes: attribute_views(self.attributes@),
            description: self.description@,
            nesting: self.nesting,
            min_items: self.min_items,
            max_items: self.max_items,
        }
    }
}

/// The views of a sequence of nested blocks.
pub open spec fn block_views(v: Seq<NestedBlockSchema>) -> Seq<BlockView> {
    v.map_values(|b: NestedBlockSchema| b@)
}

impl View for Schema {
    type V = SchemaView;

    open spec fn view(&self) -> SchemaView {
        SchemaView {
            version: self.version,
            description: self.description@,
            attributes: attribute_views(self.attributes@),
            blocks: block_views(self.blocks@),
        }
    }
}

/// An attribute with the given properties.
pub open spec fn attr_spec(
    name: Seq<char>,
    attr_type: AttributeType,
    description: Seq<char>,
    required: bool,
    optional: bool,
    computed: bool,
    sensitive: bool,
    default: Option<DefaultView>,
) -> AttributeView {
    AttributeView { name, attr_type, description, required, optional, computed, sensitive, default }
}

/// An attribute with the given properties.
pub fn attribute(
    name: &str,
    attr_type: AttributeType,
    description: &str,
    required: bool,
    optional: bool,
    computed: bool,
    sensitive: bool,
    default: Option<DefaultValue>,
) -> (r: AttributeSchema)
    ensures
        r@ == attr_spec(
            name@,
            attr_type,
            description@,
            required,
            optional,
            computed,
            sensitive,
            match default {
                Some(d) => Some(default_view(d)),
                None => None,
            },
        ),
{
    AttributeSchema {
        name: String::from_str(name),
        attr_type,
        description: String::from_str(description),
        required,
        optional,
        computed,
        sensitive,
        default,
    }
}

/// Appends an attribute.
pub fn push_attribute(v: &mut Vec<AttributeSchema>, a: AttributeSchema)
    ensures
        attribute_views(final(v)@) == attribute_views(old(v)@).push(a@),
{
    let ghost av = a@;
    v.push(a);
    assert(attribute_views(v@) =~= attribute_views(old(v)@).push(av));
}

/// Appends a nested block.
pub fn push_block(v: &mut Vec<NestedBlockSchema>, b: NestedBlockSchema)
    ensures
        block_views(final(v)@) == block_views(old(v)@).push(b@),
{
    let ghost bv = b@;
    v.push(b);
    assert(block_views(v@) =~= block_views(old(v)@).push(bv));
}

/// The number `-1` as a default.
pub fn minus_one() -> (r: DefaultValue)
    ensures
        default_view(r) == DefaultView::Number(0xBFF0000000000000u64, "-1"@),
{
    DefaultValue::Number(Number { bits: 0xBFF0000000000000u64, text: String::from_str("-1") })
}

} // verus!
