use core::cmp::Ordering;
use vstd::prelude::*;

verus! {

/// The bytecode object of a compiled contract: a hex string such as
/// `0x6080...`, or an unlinked placeholder string.
#[derive(Debug, Clone)]
pub struct ContractBytecode(pub String);

/// The marker that the compiler writes for a contract without executable code.
pub open spec fn empty_bytecode() -> Seq<char> {
    seq!['0', 'x']
}

/// Whether a contract is an interface (no executable bytecode) or an
/// implementation carrying its bytecode.
#[derive(Debug, Clone)]
pub enum ContractKind {
    Interface,
    Contract(ContractBytecode),
}

/// The mathematical value of a [`ContractKind`].
pub enum KindView {
    Interface,
    Contract(Seq<char>),
}

impl View for ContractBytecode {
    type V = Seq<char>;

    open spec fn view(&self) -> Seq<char> {
        self.0@
    }
}

impl View for ContractKind {
    type V = KindView;

    open spec fn view(&self) -> KindView {
        match self {
            ContractKind::Interface => KindView::Interface,
            ContractKind::Contract(b) => KindView::Contract(b@),
        }
    }
}

/// The kind that a bytecode string stands for.
pub open spec fn kind_of(bytecode: Seq<char>) -> KindView {
    if bytecode == empty_bytecode() {
        KindView::Interface
    } else {
        KindView::Contract(bytecode)
    }
}

fn is_empty_bytecode(s: &String) -> (r: bool)
    ensures
        r == (s@ == empty_bytecode()),
{
    let t = s.as_str();
    let n = t.unicode_len();
    if n != 2 {
        return false;
    }
    let c0 = t.get_char(0);
    let c1 = t.get_char(1);
    proof {
        if c0 == '0' && c1 == 'x' {
            assert(t@ =~= empty_bytecode());
        }
    }
    c0 == '0' && c1 == 'x'
}

/// How much of a long bytecode string a short rendering keeps at each end.
pub const ABBREVIATION_EDGE: usize = 10;

/// A short rendering of a bytecode string: the whole string up to twice
/// [`ABBREVIATION_EDGE`] characters, else its first and last characters
/// around `..`.
pub open spec fn abbreviation_of(s: Seq<char>) -> Seq<char> {
    if s.len() <= 2 * ABBREVIATION_EDGE {
        s
    } else {
        s.subrange(0, ABBREVIATION_EDGE as int) + ".."@ + s.subrange(
            s.len() - ABBREVIATION_EDGE,
            s.len() as int,
        )
    }
}

impl ContractBytecode {
    /// The bytecode text in full.
    pub fn to_string(&self) -> (r: String)
        ensures
            r@ == self@,
    {
        self.0.clone()
    }

    /// A short rendering of the bytecode, for logs and debugging output.
    pub fn abbreviated(&self) -> (r: String)
        ensures
            r@ == abbreviation_of(self@),
    {
        let s = self.0.as_str();
        let n = s.unicode_len();
        if n <= 2 * ABBREVIATION_EDGE {
            return self.0.clone();
        }
        let head = s.substring_char(0, ABBREVIATION_EDGE);
        let tail = s.substring_char(n - ABBREVIATION_EDGE, n);
        let r = String::from_str(head).concat("..");
        r.concat(tail)
    }
}

impl From<String> for ContractBytecode {
    fn from(value: String) -> (r: ContractBytecode) {
        ContractBytecode(value)
    }
}

impl vstd::std_specs::convert::FromSpecImpl<String> for ContractBytecode {
    open spec fn obeys_from_spec() -> bool {
        true
    }

    open spec fn from_spec(v: String) -> ContractBytecode {
        ContractBytecode(v)
    }
}

/// Classifies a bytecode object: the empty-bytecode marker `0x` is an
/// interface, anything else (an unlinked placeholder included) a contract.
impl From<ContractBytecode> for ContractKind {
    fn from(value: ContractBytecode) -> (r: ContractKind) {
        if is_empty_bytecode(&value.0) {
            ContractKind::Interface
        } else {
            ContractKind::Contract(value)
        }
    }
}

impl vstd::std_specs::convert::FromSpecImpl<ContractBytecode> for ContractKind {
    open spec fn obeys_from_spec() -> bool {
        true
    }

    open spec fn from_spec(v: ContractBytecode) -> ContractKind {
        if v@ == empty_bytecode() {
            ContractKind::Interface
        } else {
            ContractKind::Contract(v)
        }
    }
}

impl ContractKind {

    pub fn is_interface(&self) -> (r: bool)
        ensures
            r == (self@ == KindView::Interface),
    {
        match self {
            ContractKind::Interface => true,
            ContractKind::Contract(_) => false,
        }
    }
}


impl PartialEq for ContractBytecode {
    fn eq(&self, other: &ContractBytecode) -> (r: bool) {
        self.0 == other.0
    }
}

impl vstd::std_specs::cmp::PartialEqSpecImpl for ContractBytecode {
    open spec fn obeys_eq_spec() -> bool {
        true
    }

    open spec fn eq_spec(&self, other: &ContractBytecode) -> bool {
        self@ == other@
    }
}

impl PartialEq for ContractKind {
    fn eq(&self, other: &ContractKind) -> (r: bool) {
        match (self, other) {
            (ContractKind::Interface, ContractKind::Interface) => true,
            (ContractKind::Contract(a), ContractKind::Contract(b)) => a.0 == b.0,
            _ => false,
        }
    }
}

impl vstd::std_specs::cmp::PartialEqSpecImpl for ContractKind {
    open spec fn obeys_eq_spec() -> bool {
        true
    }

    open spec fn eq_spec(&self, other: &ContractKind) -> bool {
        self@ == other@
    }
}

/// How two classified contracts are ordered: interfaces are equal to each
/// other and come before any contract; in every other case the left-hand side
/// is reported as coming after the right-hand side, so that two contracts
/// with bytecode never compare equal, not even to themselves.
pub open spec fn kind_order(a: KindView, b: KindView) -> Ordering {
    match (a, b) {
        (KindView::Interface, KindView::Interface) => Ordering::Equal,
        (KindView::Interface, KindView::Contract(_)) => Ordering::Less,
        _ => Ordering::Greater,
    }
}

/// Compares two kinds by [`kind_order`].
pub fn compare_kinds(a: &ContractKind, b: &ContractKind) -> (r: Ordering)
    ensures
        r == kind_order(a@, b@),
{
    match (a, b) {
        (ContractKind::Interface, ContractKind::Interface) => Ordering::Equal,
        (ContractKind::Interface, ContractKind::Contract(_)) => Ordering::Less,
        _ => Ordering::Greater,
    }
}

/// A contract found through an import, read from one artifact file and not
/// expanded further.
#[derive(Debug, Clone)]
pub struct ContractFromArtifact {
    pub name: String,
    pub kind: ContractKind,
    pub artifact_path: String,
}

pub struct ArtifactContractView {
    pub name: Seq<char>,
    pub kind: KindView,
    pub artifact_path: Seq<char>,
}

impl View for ContractFromArtifact {
    type V = ArtifactContractView;

    open spec fn view(&self) -> ArtifactContractView {
        ArtifactContractView {
            name: self.name@,
            kind: self.kind@,
            artifact_path: self.artifact_path@,
        }
    }
}

impl PartialEq for ContractFromArtifact {
    fn eq(&self, other: &ContractFromArtifact) -> (r: bool) {
        self.kind == other.kind && self.name == other.name
    }
}

impl vstd::std_specs::cmp::PartialEqSpecImpl for ContractFromArtifact {
    open spec fn obeys_eq_spec() -> bool {
        true
    }

    open spec fn eq_spec(&self, other: &ContractFromArtifact) -> bool {
        self.kind@ == other.kind@ && self.name@ == other.name@
    }
}

impl PartialOrd for ContractFromArtifact {
    fn partial_cmp(&self, other: &ContractFromArtifact) -> (r: Option<Ordering>) {
        Some(compare_kinds(&self.kind, &other.kind))
    }
}

impl vstd::std_specs::cmp::PartialOrdSpecImpl for ContractFromArtifact {
    open spec fn obeys_partial_cmp_spec() -> bool {
        true
    }

    open spec fn partial_cmp_spec(&self, other: &ContractFromArtifact) -> Option<Ordering> {
        Some(kind_order(self.kind@, other.kind@))
    }
}

/// A contract of a project: one per source file and compiler version whose
/// artifact holds both bytecode and a syntax tree.
#[derive(Debug, Clone)]
pub struct Contract {
    pub name: String,
    pub kind: ContractKind,
    pub version: semver::Version,
    pub imported_contracts: Vec<ContractFromArtifact>,
}

pub struct ContractView {
    pub name: Seq<char>,
    pub kind: KindView,
    pub version: semver::Version,
    pub imported_contracts: Seq<ArtifactContractView>,
}

/// The views of a sequence of imported contracts.
pub open spec fn artifact_views(s: Seq<ContractFromArtifact>) -> Seq<ArtifactContractView> {
    s.map_values(artifact_view_fn())
}

pub open spec fn artifact_view_fn() -> spec_fn(ContractFromArtifact) -> ArtifactContractView {
    |c: ContractFromArtifact| c@
}

/// The views of a sequence of contracts.
pub open spec fn contract_views(s: Seq<Contract>) -> Seq<ContractView> {
    s.map_values(contract_view_fn())
}

pub open spec fn contract_view_fn() -> spec_fn(Contract) -> ContractView {
    |c: Contract| c@
}

/// A record that carries a contract kind.
pub trait Classified {
    spec fn kind_view(&self) -> KindView;

    fn is_interface(&self) -> (r: bool)
        ensures
            r == (self.kind_view() == KindView::Interface),
    ;
}

impl Classified for ContractFromArtifact {
    open spec fn kind_view(&self) -> KindView {
        self.kind@
    }

    fn is_interface(&self) -> (r: bool) {
        self.kind.is_interface()
    }
}

impl Classified for Contract {
    open spec fn kind_view(&self) -> KindView {
        self.kind@
    }

    fn is_interface(&self) -> (r: bool) {
        self.kind.is_interface()
    }
}

impl View for Contract {
    type V = ContractView;

    open spec fn view(&self) -> ContractView {
        ContractView {
            name: self.name@,
            kind: self.kind@,
            version: self.version,
            imported_contracts: artifact_views(self.imported_contracts@),
        }
    }
}

impl Contract {
    /// The kind of a contract with the given bytecode text.
    pub fn contract_kind(bytecode: &str) -> (r: ContractKind)
        ensures
            r@ == kind_of(bytecode@),
    {
        ContractKind::from(ContractBytecode(String::from_str(bytecode)))
    }
}

impl PartialEq for Contract {
    fn eq(&self, other: &Contract) -> (r: bool) {
        self.kind == other.kind && self.name == other.name
    }
}

impl vstd::std_specs::cmp::PartialEqSpecImpl for Contract {
    open spec fn obeys_eq_spec() -> bool {
        true
    }

    open spec fn eq_spec(&self, other: &Contract) -> bool {
        self.kind@ == other.kind@ && self.name@ == other.name@
    }
}

impl PartialOrd for Contract {
    fn partial_cmp(&self, other: &Contract) -> (r: Option<Ordering>) {
        Some(compare_kinds(&self.kind, &other.kind))
    }
}

impl vstd::std_specs::cmp::PartialOrdSpecImpl for Contract {
    open spec fn obeys_partial_cmp_spec() -> bool {
        true
    }

    open spec fn partial_cmp_spec(&self, other: &Contract) -> Option<Ordering> {
        Some(kind_order(self.kind@, other.kind@))
    }
}

/// Classification depends on the bytecode text alone: the empty-bytecode
/// marker `0x` is an interface, and every other bytecode string, an unlinked
/// placeholder included, is a contract carrying that bytecode.
pub proof fn lemma_classification(b: ContractBytecode)
    ensures
        <ContractKind as vstd::std_specs::convert::FromSpec<ContractBytecode>>::from_spec(b)@ == kind_of(b@),
        b@ == empty_bytecode() ==> kind_of(b@) == KindView::Interface,
        b@ != empty_bytecode() ==> kind_of(b@) == KindView::Contract(b@),
{
}

/// The comparator: two interfaces are equal, an interface comes before any
/// contract, and a contract is reported as coming after whatever stands on
/// the right, so that it never compares equal even to itself.
pub proof fn lemma_comparator(a: KindView, b: KindView)
    ensures
        a == KindView::Interface && b == KindView::Interface ==> kind_order(a, b) == Ordering::Equal,
        a == KindView::Interface && b != KindView::Interface ==> kind_order(a, b) == Ordering::Less,
        a != KindView::Interface ==> kind_order(a, b) == Ordering::Greater,
        a != KindView::Interface ==> kind_order(a, a) == Ordering::Greater,
{
}

} // verus!
