//! The instance expander's arithmetic: what an instantiation clause asks
//! for, how large a node is, and where its instances come to lie.
//!
//! Offsets are relative to the base of the parent. Siblings are packed: a
//! node without an explicit address starts where the sibling before it
//! ends, with no padding, and the instances of an array follow one another
//! at a distance of one size. Fields are packed in the same way, from bit 0
//! upward.

use vstd::prelude::*;
use crate::ast::ArrayOrRange;
use crate::ast::ComponentInst;
use crate::ast::ConstantExpr;
use crate::ast::Literal;
use crate::ast::LiteralKind;
use crate::ast::PrimaryLiteral;
use crate::error::Construct;
use crate::error::ErrorKind;
use crate::error::ErrorKindView;
use crate::error::Site;
use crate::eval::eval_spec;
use crate::eval::evaluate_constants;
use crate::node::NodeKind;
use crate::node::Placement;
use crate::property::PropertyMap;
use crate::scope::declared;
use crate::scope::declared_value;
use crate::scope::effective_spec;
use crate::scope::chain_view;

verus! {

/// How far a scope is filled: where the next child without an explicit
/// address or bit range goes, and how far the children reach.
#[derive(Clone, Copy, Debug, PartialEq, Eq, Structural)]
pub struct Layout {
    /// The offset just behind the last addressable child.
    pub next_offset: u64,
    /// The largest offset just behind any addressable child.
    pub extent: u64,
    /// The bit just above the last field.
    pub next_bit: u64,
}

impl Layout {
    /// The layout of a scope without children.
    pub open spec fn spec_start() -> Layout {
        Layout { next_offset: 0, extent: 0, next_bit: 0 }
    }

    /// The layout of a scope without children.
    #[verifier::when_used_as_spec(spec_start)]
    pub fn start() -> (res: Layout)
        ensures
            res == Layout::spec_start(),
    {
        Layout { next_offset: 0, extent: 0, next_bit: 0 }
    }
}

/// What an instantiation clause asks for.
#[derive(Clone, Copy, Debug)]
pub enum Request {
    /// `count` instances, the first at `base` or, without one, behind the
    /// sibling before it.
    Instances { count: u64, base: Option<u64> },
    /// One field of `span + 1` bits, whose lowest bit is `lsb` or, without
    /// one, the bit above the field before it.
    Bits { lsb: Option<u64>, span: u64 },
}

impl Request {
    /// A field asks for bits, every other kind for instances.
    pub open spec fn suits(self, kind: NodeKind) -> bool {
        (self is Bits) == (kind == NodeKind::Field)
    }
}

/// The part of an instantiation clause that elaboration does not handle,
/// if it has one: a reset value, an address stride or an alignment.
pub open spec fn spec_unsupported_part(inst: &ComponentInst) -> Option<Construct> {
    if inst.equals is Some {
        Some(Construct::ResetAssignment)
    } else if inst.plus_equals is Some {
        Some(Construct::AddressStride)
    } else if inst.percent_equals is Some {
        Some(Construct::AddressAlignment)
    } else {
        None
    }
}

/// The part of an instantiation clause that elaboration does not handle.
pub fn unsupported_part(inst: &ComponentInst) -> (res: Option<Construct>)
    ensures
        res == spec_unsupported_part(inst),
{
    if inst.equals.is_some() {
        Some(Construct::ResetAssignment)
    } else if inst.plus_equals.is_some() {
        Some(Construct::AddressStride)
    } else if inst.percent_equals.is_some() {
        Some(Construct::AddressAlignment)
    } else {
        None
    }
}

/// Whether a clause makes an array of instances: it has brackets, and the
/// instance is no field, whose brackets give a width.
pub open spec fn spec_is_array(kind: NodeKind, clause: Option<&ComponentInst>) -> bool {
    match clause {
        Some(inst) => kind != NodeKind::Field && inst.array_or_range is Some,
        None => false,
    }
}

/// Whether a clause makes an array of instances.
pub fn is_array(kind: NodeKind, clause: Option<&ComponentInst>) -> (res: bool)
    ensures
        res == spec_is_array(kind, clause),
{
    match clause {
        Some(inst) => kind != NodeKind::Field && inst.array_or_range.is_some(),
        None => false,
    }
}

/// The number that a literal stands for where `site` asks for one.
pub open spec fn as_number(v: Literal, site: Site) -> Result<u64, ErrorKindView> {
    match v {
        Literal::Number(n) => Ok(n),
        _ => Err(ErrorKindView::TypeMismatch(site, LiteralKind::Number, v.kind())),
    }
}

/// The number that an expression evaluates to where `site` asks for one.
pub open spec fn number_spec(e: ConstantExpr, site: Site) -> Result<u64, ErrorKindView> {
    match eval_spec(e) {
        Err(k) => Err(k),
        Ok(v) => as_number(v, site),
    }
}

/// Whether `res` is the executable form of `expected`.
pub open spec fn is_number(res: Result<u64, ErrorKind>, expected: Result<u64, ErrorKindView>) -> bool {
    match res {
        Ok(n) => expected == Ok::<u64, ErrorKindView>(n),
        Err(k) => expected == Err::<u64, ErrorKindView>(k@),
    }
}

/// Reads a literal as a number.
pub fn literal_number(v: &PrimaryLiteral, site: Site) -> (res: Result<u64, ErrorKind>)
    ensures
        is_number(res, as_number(v@, site)),
{
    match v {
        PrimaryLiteral::Number(n) => Ok(*n),
        _ => Err(ErrorKind::TypeMismatch(site, LiteralKind::Number, v.kind())),
    }
}

/// Evaluates an expression that has to be a number.
pub fn evaluate_number(e: &ConstantExpr, site: Site) -> (res: Result<u64, ErrorKind>)
    ensures
        is_number(res, number_spec(*e, site)),
{
    let v = evaluate_constants(e)?;
    literal_number(&v, site)
}

/// The bits that the brackets of a field instance ask for. Without
/// brackets the field has one bit. `[n]` asks for `n` bits above the field
/// before it; `[msb:lsb]` for the bits `msb` down to `lsb`, `msb - lsb + 1`
/// of them. A range whose upper bound lies below its lower bound, and a width
/// of zero, are rejected as malformed: neither is read as a field of one bit.
pub open spec fn bits_spec(name: Seq<char>, brackets: Option<ArrayOrRange>) -> Result<
    Request,
    ErrorKindView,
> {
    match brackets {
        None => Ok(Request::Bits { lsb: None, span: 0 }),
        Some(ArrayOrRange::Array(dims)) => if dims.len() != 1 {
            Err(ErrorKindView::UnsupportedConstruct(Construct::ArrayDimensions))
        } else {
            match number_spec(dims[0], Site::ArrayDimension) {
                Err(k) => Err(k),
                Ok(n) => if n == 0 {
                    Err(ErrorKindView::MalformedRange(name))
                } else {
                    Ok(Request::Bits { lsb: None, span: (n - 1) as u64 })
                },
            }
        },
        Some(ArrayOrRange::Range(upper, lower)) => match number_spec(upper, Site::RangeBound) {
            Err(k) => Err(k),
            Ok(msb) => match number_spec(lower, Site::RangeBound) {
                Err(k) => Err(k),
                Ok(lsb) => if msb < lsb {
                    Err(ErrorKindView::MalformedRange(name))
                } else {
                    Ok(Request::Bits { lsb: Some(lsb), span: (msb - lsb) as u64 })
                },
            },
        },
    }
}

/// How many instances the brackets of an instance ask for: one without
/// brackets, `n` for `[n]`.
pub open spec fn count_spec(brackets: Option<ArrayOrRange>) -> Result<u64, ErrorKindView> {
    match brackets {
        None => Ok(1),
        Some(ArrayOrRange::Array(dims)) => if dims.len() != 1 {
            Err(ErrorKindView::UnsupportedConstruct(Construct::ArrayDimensions))
        } else {
            number_spec(dims[0], Site::ArrayDimension)
        },
        Some(ArrayOrRange::Range(_, _)) => Err(
            ErrorKindView::UnsupportedConstruct(Construct::BitRange),
        ),
    }
}

/// What the clause of a field asks for: the brackets give its bits, and
/// an address is rejected, a field having none. A field that stands without
/// a clause has one bit.
pub open spec fn field_request_spec(name: Seq<char>, clause: Option<&ComponentInst>) -> Result<
    Request,
    ErrorKindView,
> {
    match clause {
        None => Ok(Request::Bits { lsb: None, span: 0 }),
        Some(inst) => match bits_spec(name, inst.array_or_range) {
            Err(k) => Err(k),
            Ok(request) => if inst.at is Some {
                Err(ErrorKindView::UnsupportedConstruct(Construct::Address))
            } else {
                Ok(request)
            },
        },
    }
}

/// What the clause of an address map, a register file, a register or a
/// memory asks for: the brackets give the number of instances, the
/// expression behind `@` the address of the first. A definition that stands
/// without a clause is one instance.
pub open spec fn placed_request_spec(clause: Option<&ComponentInst>) -> Result<
    Request,
    ErrorKindView,
> {
    match clause {
        None => Ok(Request::Instances { count: 1, base: None }),
        Some(inst) => match count_spec(inst.array_or_range) {
            Err(k) => Err(k),
            Ok(count) => match inst.at {
                None => Ok(Request::Instances { count, base: None }),
                Some(e) => match number_spec(e, Site::Address) {
                    Err(k) => Err(k),
                    Ok(a) => Ok(Request::Instances { count, base: Some(a) }),
                },
            },
        },
    }
}

/// What the clause of a signal asks for: the brackets give the number of
/// instances, and an address is rejected, a signal having none.
pub open spec fn unplaced_request_spec(clause: Option<&ComponentInst>) -> Result<
    Request,
    ErrorKindView,
> {
    match clause {
        None => Ok(Request::Instances { count: 1, base: None }),
        Some(inst) => match count_spec(inst.array_or_range) {
            Err(k) => Err(k),
            Ok(count) => if inst.at is Some {
                Err(ErrorKindView::UnsupportedConstruct(Construct::Address))
            } else {
                Ok(Request::Instances { count, base: None })
            },
        },
    }
}

/// What the clause of an instance of kind `kind` asks for. The brackets
/// are read first, then the address.
pub open spec fn request_spec(kind: NodeKind, name: Seq<char>, clause: Option<&ComponentInst>) -> Result<
    Request,
    ErrorKindView,
> {
    match kind {
        NodeKind::Field => field_request_spec(name, clause),
        NodeKind::Signal => unplaced_request_spec(clause),
        NodeKind::AddrMap => placed_request_spec(clause),
        NodeKind::RegFile => placed_request_spec(clause),
        NodeKind::Register => placed_request_spec(clause),
        NodeKind::Mem => placed_request_spec(clause),
    }
}

/// Whether `res` is the executable form of `expected`.
pub open spec fn is_request(res: Result<Request, ErrorKind>, expected: Result<Request, ErrorKindView>) -> bool {
    match res {
        Ok(r) => expected == Ok::<Request, ErrorKindView>(r),
        Err(k) => expected == Err::<Request, ErrorKindView>(k@),
    }
}

/// Reads the brackets of a field instance.
pub fn resolve_bits(name: &String, brackets: &Option<ArrayOrRange>) -> (res: Result<
    Request,
    ErrorKind,
>)
    ensures
        is_request(res, bits_spec(name@, *brackets)),
        res matches Ok(r) ==> r is Bits,
{
    match brackets {
        None => Ok(Request::Bits { lsb: None, span: 0 }),
        Some(ArrayOrRange::Array(dims)) => {
            if dims.len() != 1 {
                return Err(ErrorKind::UnsupportedConstruct(Construct::ArrayDimensions));
            }
            let n = evaluate_number(&dims[0], Site::ArrayDimension)?;
            if n == 0 {
                Err(ErrorKind::MalformedRange(name.clone()))
            } else {
                Ok(Request::Bits { lsb: None, span: n - 1 })
            }
        },
        Some(ArrayOrRange::Range(upper, lower)) => {
            let msb = evaluate_number(upper, Site::RangeBound)?;
            let lsb = evaluate_number(lower, Site::RangeBound)?;
            if msb < lsb {
                Err(ErrorKind::MalformedRange(name.clone()))
            } else {
                Ok(Request::Bits { lsb: Some(lsb), span: msb - lsb })
            }
        },
    }
}

/// Reads the brackets of an instance that is not a field.
pub fn resolve_count(brackets: &Option<ArrayOrRange>) -> (res: Result<u64, ErrorKind>)
    ensures
        is_number(res, count_spec(*brackets)),
{
    match brackets {
        None => Ok(1),
        Some(ArrayOrRange::Array(dims)) => {
            if dims.len() != 1 {
                return Err(ErrorKind::UnsupportedConstruct(Construct::ArrayDimensions));
            }
            evaluate_number(&dims[0], Site::ArrayDimension)
        },
        Some(ArrayOrRange::Range(_, _)) => Err(
            ErrorKind::UnsupportedConstruct(Construct::BitRange),
        ),
    }
}

/// Reads the clause of a field.
pub fn field_request(name: &String, clause: Option<&ComponentInst>) -> (res: Result<
    Request,
    ErrorKind,
>)
    ensures
        is_request(res, field_request_spec(name@, clause)),
        res matches Ok(r) ==> r is Bits,
{
    match clause {
        None => Ok(Request::Bits { lsb: None, span: 0 }),
        Some(inst) => {
            let request = resolve_bits(name, &inst.array_or_range)?;
            if inst.at.is_some() {
                Err(ErrorKind::UnsupportedConstruct(Construct::Address))
            } else {
                Ok(request)
            }
        },
    }
}

/// Reads the clause of an address map, a register file, a register or a
/// memory.
pub fn placed_request(clause: Option<&ComponentInst>) -> (res: Result<Request, ErrorKind>)
    ensures
        is_request(res, placed_request_spec(clause)),
        res matches Ok(r) ==> r is Instances,
{
    match clause {
        None => Ok(Request::Instances { count: 1, base: None }),
        Some(inst) => {
            let count = resolve_count(&inst.array_or_range)?;
            match &inst.at {
                None => Ok(Request::Instances { count, base: None }),
                Some(e) => {
                    let a = evaluate_number(e, Site::Address)?;
                    Ok(Request::Instances { count, base: Some(a) })
                },
            }
        },
    }
}

/// Reads the clause of a signal.
pub fn unplaced_request(clause: Option<&ComponentInst>) -> (res: Result<Request, ErrorKind>)
    ensures
        is_request(res, unplaced_request_spec(clause)),
        res matches Ok(r) ==> r is Instances,
{
    match clause {
        None => Ok(Request::Instances { count: 1, base: None }),
        Some(inst) => {
            let count = resolve_count(&inst.array_or_range)?;
            if inst.at.is_some() {
                Err(ErrorKind::UnsupportedConstruct(Construct::Address))
            } else {
                Ok(Request::Instances { count, base: None })
            }
        },
    }
}

/// The bytes that `bits` bits take up, a started byte counted whole.
pub open spec fn spec_bytes(bits: u64) -> u64 {
    if bits % 8 == 0 {
        bits / 8
    } else {
        (bits / 8 + 1) as u64
    }
}

/// The bytes that `bits` bits take up.
pub fn bytes(bits: u64) -> (res: u64)
    ensures
        res == spec_bytes(bits),
{
    if bits % 8 == 0 {
        bits / 8
    } else {
        bits / 8 + 1
    }
}

/// The number that is declared for the property `name`, or `fallback` where
/// nothing is declared.
pub open spec fn number_property_spec(
    local: Map<Seq<char>, Literal>,
    chain: Seq<Map<Seq<char>, Literal>>,
    name: Seq<char>,
    site: Site,
    fallback: u64,
) -> Result<u64, ErrorKindView> {
    match declared_value(local, chain, name) {
        None => Ok(fallback),
        Some(v) => as_number(v, site),
    }
}

/// Reads a property that has to be a number.
pub fn number_property(
    local: &PropertyMap,
    chain: &Vec<&PropertyMap>,
    name: &String,
    site: Site,
    fallback: u64,
) -> (res: Result<u64, ErrorKind>)
    ensures
        is_number(res, number_property_spec(local@, chain_view(chain@), name@, site, fallback)),
{
    match declared(local, chain, name) {
        None => Ok(fallback),
        Some(v) => literal_number(&v, site),
    }
}

/// The size of a register in bytes: as wide as its `regwidth` says, 32
/// bits where nothing is declared.
pub open spec fn register_size_spec(
    local: Map<Seq<char>, Literal>,
    chain: Seq<Map<Seq<char>, Literal>>,
) -> Result<u64, ErrorKindView> {
    match number_property_spec(local, chain, "regwidth"@, Site::RegWidth, 32) {
        Err(k) => Err(k),
        Ok(width) => Ok(spec_bytes(width)),
    }
}

/// The size of a memory in bytes: `mementries` entries, one where nothing
/// is declared, of `memwidth` bits each, 32 where nothing is declared.
pub open spec fn memory_size_spec(
    local: Map<Seq<char>, Literal>,
    chain: Seq<Map<Seq<char>, Literal>>,
) -> Result<u64, ErrorKindView> {
    match number_property_spec(local, chain, "memwidth"@, Site::MemWidth, 32) {
        Err(k) => Err(k),
        Ok(width) => match number_property_spec(local, chain, "mementries"@, Site::MemEntries, 1) {
            Err(k) => Err(k),
            Ok(entries) => if entries * spec_bytes(width) > u64::MAX {
                Err(ErrorKindView::LayoutOverflow)
            } else {
                Ok((entries * spec_bytes(width)) as u64)
            },
        },
    }
}

/// The size in bytes that a node has by its own properties: a register
/// and a memory have one. The size of an address map and of a register file
/// is a matter of their children, and a field and a signal have none.
pub open spec fn own_size_spec(
    kind: NodeKind,
    local: Map<Seq<char>, Literal>,
    chain: Seq<Map<Seq<char>, Literal>>,
) -> Result<Option<u64>, ErrorKindView> {
    match kind {
        NodeKind::Register => match register_size_spec(local, chain) {
            Err(k) => Err(k),
            Ok(size) => Ok(Some(size)),
        },
        NodeKind::Mem => match memory_size_spec(local, chain) {
            Err(k) => Err(k),
            Ok(size) => Ok(Some(size)),
        },
        NodeKind::AddrMap => Ok(None),
        NodeKind::RegFile => Ok(None),
        NodeKind::Field => Ok(None),
        NodeKind::Signal => Ok(None),
    }
}

/// Computes the size of a register.
pub fn register_size(local: &PropertyMap, chain: &Vec<&PropertyMap>) -> (res: Result<
    u64,
    ErrorKind,
>)
    ensures
        is_number(res, register_size_spec(local@, chain_view(chain@))),
{
    let name = "regwidth".to_string();
    let width = number_property(local, chain, &name, Site::RegWidth, 32)?;
    Ok(bytes(width))
}

/// Computes the size of a memory.
pub fn memory_size(local: &PropertyMap, chain: &Vec<&PropertyMap>) -> (res: Result<u64, ErrorKind>)
    ensures
        is_number(res, memory_size_spec(local@, chain_view(chain@))),
{
    let width_name = "memwidth".to_string();
    let width = number_property(local, chain, &width_name, Site::MemWidth, 32)?;
    let entries_name = "mementries".to_string();
    let entries = number_property(local, chain, &entries_name, Site::MemEntries, 1)?;
    match entries.checked_mul(bytes(width)) {
        None => Err(ErrorKind::LayoutOverflow),
        Some(size) => Ok(size),
    }
}

/// The places of the instances that a request asks for, and the layout of
/// the scope behind them.
pub struct Arrangement {
    pub places: Seq<Placement>,
    pub layout: Layout,
}

/// The larger of two numbers.
pub open spec fn spec_max(a: u64, b: u64) -> u64 {
    if a >= b {
        a
    } else {
        b
    }
}

/// Where the instances of a request come to lie in a scope that is filled
/// up to `layout`, each instance `size` bytes large.
///
/// Instance `i` of an addressable kind lies at `start + i * size`, where
/// `start` is the explicit address or, without one, the offset behind the
/// sibling before: the offsets are packed and not padded to any alignment.
/// A request for no instance leaves the layout as it is. A field lies at its
/// explicit lowest bit or, without one, above the field before it. Whatever
/// does not fit in 64 bits is an overflow.
pub open spec fn arrange_spec(kind: NodeKind, request: Request, size: u64, layout: Layout) -> Result<
    Arrangement,
    ErrorKindView,
> {
    match request {
        Request::Instances { count, base } => if !kind.spec_is_addressable() {
            Ok(Arrangement { places: Seq::new(count as nat, |i: int| Placement::Unplaced), layout })
        } else if count == 0 {
            Ok(Arrangement { places: Seq::empty(), layout })
        } else {
            let start = match base {
                Some(a) => a,
                None => layout.next_offset,
            };
            if start + count * size > u64::MAX {
                Err(ErrorKindView::LayoutOverflow)
            } else {
                let end = (start + count * size) as u64;
                Ok(
                    Arrangement {
                        places: Seq::new(
                            count as nat,
                            |i: int| Placement::Address { offset: (start + i * size) as u64, size },
                        ),
                        layout: Layout {
                            next_offset: end,
                            extent: spec_max(layout.extent, end),
                            next_bit: layout.next_bit,
                        },
                    },
                )
            }
        },
        Request::Bits { lsb, span } => {
            let low = match lsb {
                Some(b) => b,
                None => layout.next_bit,
            };
            if low + span + 1 > u64::MAX {
                Err(ErrorKindView::LayoutOverflow)
            } else {
                Ok(
                    Arrangement {
                        places: seq![Placement::Bits { msb: (low + span) as u64, lsb: low }],
                        layout: Layout {
                            next_offset: layout.next_offset,
                            extent: layout.extent,
                            next_bit: (low + span + 1) as u64,
                        },
                    },
                )
            }
        },
    }
}

/// Lays the instances of a request out.
pub fn arrange(kind: NodeKind, request: Request, size: u64, layout: Layout) -> (res: Result<
    (Vec<Placement>, Layout),
    ErrorKind,
>)
    ensures
        match res {
            Ok(a) => arrange_spec(kind, request, size, layout) == Ok::<Arrangement, ErrorKindView>(
                Arrangement { places: a.0@, layout: a.1 },
            ) && (request.suits(kind) ==> forall|i: int|
                0 <= i < a.0.len() ==> (#[trigger] a.0[i]).fits(kind)),
            Err(k) => arrange_spec(kind, request, size, layout) == Err::<Arrangement, ErrorKindView>(
                k@,
            ),
        },
{
    match request {
        Request::Instances { count, base } => {
            let mut places: Vec<Placement> = Vec::new();
            if !kind.is_addressable() {
                let mut i: u64 = 0;
                while i < count
                    invariant
                        i <= count,
                        places.len() == i,
                        forall|j: int| 0 <= j < i ==> places[j] == Placement::Unplaced,
                    decreases count - i,
                {
                    places.push(Placement::Unplaced);
                    i += 1;
                }
                assert(places@ =~= Seq::new(count as nat, |i: int| Placement::Unplaced));
                return Ok((places, layout));
            }
            if count == 0 {
                return Ok((places, layout));
            }
            let start = match base {
                Some(a) => a,
                None => layout.next_offset,
            };
            let span = match count.checked_mul(size) {
                None => {
                    return Err(ErrorKind::LayoutOverflow);
                },
                Some(s) => s,
            };
            let end = match start.checked_add(span) {
                None => {
                    return Err(ErrorKind::LayoutOverflow);
                },
                Some(e) => e,
            };
            let mut i: u64 = 0;
            let mut offset: u64 = start;
            while i < count
                invariant
                    i <= count,
                    places.len() == i,
                    kind.spec_is_addressable(),
                    offset == start + i * size,
                    start + count * size == end,
                    forall|j: int|
                        0 <= j < i ==> places[j] == (Placement::Address {
                            offset: (start + j * size) as u64,
                            size,
                        }),
                decreases count - i,
            {
                places.push(Placement::Address { offset, size });
                proof {
                    assert((i + 1) * size == i * size + size) by (nonlinear_arith);
                    assert((i + 1) * size <= count * size) by (nonlinear_arith)
                        requires
                            i + 1 <= count,
                            size >= 0,
                    ;
                }
                i += 1;
                offset = offset + size;
            }
            assert(places@ =~= Seq::new(
                count as nat,
                |i: int| Placement::Address { offset: (start + i * size) as u64, size },
            ));
            let extent = if layout.extent >= end {
                layout.extent
            } else {
                end
            };
            Ok((places, Layout { next_offset: end, extent, next_bit: layout.next_bit }))
        },
        Request::Bits { lsb, span } => {
            let low = match lsb {
                Some(b) => b,
                None => layout.next_bit,
            };
            let msb = match low.checked_add(span) {
                None => {
                    return Err(ErrorKind::LayoutOverflow);
                },
                Some(m) => m,
            };
            if msb == u64::MAX {
                return Err(ErrorKind::LayoutOverflow);
            }
            let mut places: Vec<Placement> = Vec::new();
            places.push(Placement::Bits { msb, lsb: low });
            Ok(
                (
                    places,
                    Layout {
                        next_offset: layout.next_offset,
                        extent: layout.extent,
                        next_bit: msb + 1,
                    },
                ),
            )
        },
    }
}

/// The instances of an array without an explicit address lie one size
/// apart, the first where the scope was filled up to: instance `i` is at
/// `layout.next_offset + i * size`.
pub proof fn lemma_array_is_arithmetic(kind: NodeKind, count: u64, size: u64, layout: Layout)
    requires
        kind.spec_is_addressable(),
        arrange_spec(kind, Request::Instances { count, base: None }, size, layout) is Ok,
    ensures
        ({
            let a = arrange_spec(kind, Request::Instances { count, base: None }, size, layout)->Ok_0;
            &&& a.places.len() == count
            &&& forall|i: int|
                0 <= i < count ==> #[trigger] a.places[i] == (Placement::Address {
                    offset: (layout.next_offset + i * size) as u64,
                    size,
                }) && layout.next_offset + i * size <= u64::MAX
        }),
{
    let a = arrange_spec(kind, Request::Instances { count, base: None }, size, layout)->Ok_0;
    assert forall|i: int| 0 <= i < count implies #[trigger] a.places[i] == (Placement::Address {
        offset: (layout.next_offset + i * size) as u64,
        size,
    }) && layout.next_offset + i * size <= u64::MAX by {
        assert(i * size <= count * size) by (nonlinear_arith)
            requires
                0 <= i < count,
                size >= 0,
        ;
    }
}

/// A range `[msb:lsb]` with `msb >= lsb` is a field of `msb - lsb + 1`
/// bits whose lowest bit is `lsb`; one with `msb < lsb` is malformed.
pub proof fn lemma_range_width(name: Seq<char>, upper: ConstantExpr, lower: ConstantExpr, msb: u64, lsb: u64)
    requires
        eval_spec(upper) == Ok::<Literal, ErrorKindView>(Literal::Number(msb)),
        eval_spec(lower) == Ok::<Literal, ErrorKindView>(Literal::Number(lsb)),
    ensures
        msb < lsb ==> bits_spec(name, Some(ArrayOrRange::Range(upper, lower))) == Err::<
            Request,
            ErrorKindView,
        >(ErrorKindView::MalformedRange(name)),
        msb >= lsb ==> bits_spec(name, Some(ArrayOrRange::Range(upper, lower))) == Ok::<
            Request,
            ErrorKindView,
        >(Request::Bits { lsb: Some(lsb), span: (msb - lsb) as u64 }),
        msb >= lsb && msb < u64::MAX ==> forall|layout: Layout|
            (#[trigger] arrange_spec(
                NodeKind::Field,
                Request::Bits { lsb: Some(lsb), span: (msb - lsb) as u64 },
                0,
                layout,
            )) matches Ok(a) && a.places == seq![Placement::Bits { msb, lsb }],
{
}

/// The size of a register is that of its effective `regwidth`: where the
/// effective value is the number `width`, the register takes up the bytes
/// that `width` bits take up.
pub proof fn lemma_register_size_follows_regwidth(
    local: Map<Seq<char>, Literal>,
    chain: Seq<Map<Seq<char>, Literal>>,
    width: u64,
)
    requires
        effective_spec(NodeKind::Register, local, chain, "regwidth"@) == Some(
            Literal::Number(width),
        ),
    ensures
        own_size_spec(NodeKind::Register, local, chain) == Ok::<Option<u64>, ErrorKindView>(
            Some(spec_bytes(width)),
        ),
{
}

} // verus!
