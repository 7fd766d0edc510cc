//! The module resolver: which declarations of a parsed file are kept, and how
//! the files of nested modules are asked for, one after the other, until the
//! tree is assembled.
//!
//! Reading a file is the caller's part. The resolver says which file it needs
//! next and takes the text, or the news that there is none; what it decides
//! from that is verified here.
use vstd::prelude::*;
use vstd::string::*;
use crate::error::{ConversionError, ErrorModel};
use crate::parse::parse_source;
use crate::raw::{RawAttr, RawAttrForm, RawFile, RawItem};
use crate::text::same_text;
use crate::types::{RsEnum, RsFn, RsStruct, RsType, TypeModel};

verus! {

/// Why a module tree could not be resolved.
#[derive(Debug, PartialEq, Eq, Hash)]
pub enum ModuleError {
    /// The builder was given no name.
    MissingName,
    /// The builder was given no path.
    MissingPath,
    /// Neither file of the module could be read, or what was read is no valid
    /// source.
    InvalidModule { name: String, path: String },
    /// A declaration that the module exports could not be extracted.
    Conversion(ConversionError),
}

/// The mathematical value of a `ModuleError`.
pub enum ModuleErrorModel {
    MissingName,
    MissingPath,
    InvalidModule { name: Seq<char>, path: Seq<char> },
    Conversion(ErrorModel),
}

impl View for ModuleError {
    type V = ModuleErrorModel;

    open spec fn view(&self) -> ModuleErrorModel {
        match self {
            ModuleError::MissingName => ModuleErrorModel::MissingName,
            ModuleError::MissingPath => ModuleErrorModel::MissingPath,
            ModuleError::InvalidModule { name, path } => ModuleErrorModel::InvalidModule {
                name: name@,
                path: path@,
            },
            ModuleError::Conversion(e) => ModuleErrorModel::Conversion(e@),
        }
    }
}

/// How a `ModuleError` is written.
pub open spec fn module_error_text(e: ModuleErrorModel) -> Seq<char> {
    match e {
        ModuleErrorModel::MissingName => "Missing name"@,
        ModuleErrorModel::MissingPath => "Missing path"@,
        ModuleErrorModel::InvalidModule { name, path } => "Invalid module: "@ + name + " in "@
            + path,
        ModuleErrorModel::Conversion(c) => crate::error::trail_spec(c),
    }
}

impl ModuleError {
    /// Writes the error.
    pub fn render(&self) -> (r: String)
        ensures
            r@ == module_error_text(self@),
    {
        match self {
            ModuleError::MissingName => String::from_str("Missing name"),
            ModuleError::MissingPath => String::from_str("Missing path"),
            ModuleError::InvalidModule { name, path } => {
                let mut out = String::from_str("Invalid module: ");
                out.append(name.as_str());
                out.append(" in ");
                out.append(path.as_str());
                out
            },
            ModuleError::Conversion(c) => c.trail(),
        }
    }
}

/// Where a module stands in the tree.
#[derive(Debug, PartialEq, Eq, Hash)]
pub enum RsModuleType {
    /// The root of the tree.
    CrateModule,
    /// A module declared in another.
    SubModule {
        /// The name of the module that declares it.
        parent: String,
    },
}

/// The mathematical value of a `RsModuleType`.
pub enum KindModel {
    Root,
    Sub { parent: Seq<char> },
}

impl View for RsModuleType {
    type V = KindModel;

    open spec fn view(&self) -> KindModel {
        match self {
            RsModuleType::CrateModule => KindModel::Root,
            RsModuleType::SubModule { parent } => KindModel::Sub { parent: parent@ },
        }
    }
}

/// A resolved module: its declarations and its nested modules, each list in
/// the order of the source.
#[derive(Debug, PartialEq, Eq, Hash)]
pub struct Module {
    /// The name.
    pub name: String,
    /// The directory in which its file was looked for.
    pub path: String,
    /// Where it stands in the tree.
    pub kind: RsModuleType,
    /// The nested modules.
    pub children: Vec<Module>,
    /// The structs.
    pub structs: Vec<RsStruct>,
    /// The functions.
    pub functions: Vec<RsFn>,
    /// The enums.
    pub enums: Vec<RsEnum>,
}

/// The mathematical value of a `Module`.
pub struct ModuleModel {
    pub name: Seq<char>,
    pub path: Seq<char>,
    pub kind: KindModel,
    pub children: Seq<ModuleModel>,
    pub structs: Seq<TypeModel>,
    pub functions: Seq<TypeModel>,
    pub enums: Seq<TypeModel>,
}

/// The values of `v`, in order.
pub open spec fn structs_model(v: Seq<RsStruct>) -> Seq<TypeModel> {
    Seq::new(v.len(), |i: int| v[i]@)
}

/// The values of `v`, in order.
pub open spec fn enums_model(v: Seq<RsEnum>) -> Seq<TypeModel> {
    Seq::new(v.len(), |i: int| v[i]@)
}

/// The values of `v`, in order.
pub open spec fn fns_model(v: Seq<RsFn>) -> Seq<TypeModel> {
    Seq::new(v.len(), |i: int| v[i]@)
}

/// The value of `m`.
pub open spec fn module_model(m: Module) -> ModuleModel
    decreases m,
{
    ModuleModel {
        name: m.name@,
        path: m.path@,
        kind: m.kind@,
        children: modules_model(m.children@),
        structs: structs_model(m.structs@),
        functions: fns_model(m.functions@),
        enums: enums_model(m.enums@),
    }
}

/// The values of `ms`, in order.
pub open spec fn modules_model(ms: Seq<Module>) -> Seq<ModuleModel>
    decreases ms,
{
    Seq::new(
        ms.len(),
        |i: int|
            if 0 <= i < ms.len() {
                module_model(ms[i])
            } else {
                arbitrary()
            },
    )
}

impl View for Module {
    type V = ModuleModel;

    open spec fn view(&self) -> ModuleModel {
        module_model(*self)
    }
}

fn clone_structs(v: &Vec<RsStruct>) -> (r: Vec<RsStruct>)
    ensures
        structs_model(r@) == structs_model(v@),
{
    let mut out: Vec<RsStruct> = Vec::new();
    let mut i: usize = 0;
    while i < v.len()
        invariant
            i <= v.len(),
            out.len() == i,
            forall|k: int| 0 <= k < i ==> (#[trigger] out@[k])@ == v@[k]@,
        decreases v.len() - i,
    {
        out.push(v[i].clone());
        i += 1;
    }
    out
}

fn clone_enums(v: &Vec<RsEnum>) -> (r: Vec<RsEnum>)
    ensures
        enums_model(r@) == enums_model(v@),
{
    let mut out: Vec<RsEnum> = Vec::new();
    let mut i: usize = 0;
    while i < v.len()
        invariant
            i <= v.len(),
            out.len() == i,
            forall|k: int| 0 <= k < i ==> (#[trigger] out@[k])@ == v@[k]@,
        decreases v.len() - i,
    {
        out.push(v[i].clone());
        i += 1;
    }
    out
}

fn clone_fns(v: &Vec<RsFn>) -> (r: Vec<RsFn>)
    ensures
        fns_model(r@) == fns_model(v@),
{
    let mut out: Vec<RsFn> = Vec::new();
    let mut i: usize = 0;
    while i < v.len()
        invariant
            i <= v.len(),
            out.len() == i,
            forall|k: int| 0 <= k < i ==> (#[trigger] out@[k])@ == v@[k]@,
        decreases v.len() - i,
    {
        out.push(v[i].clone());
        i += 1;
    }
    out
}

fn clone_module(m: &Module) -> (r: Module)
    ensures
        r@ == m@,
    decreases m, 0nat,
{
    Module {
        name: m.name.clone(),
        path: m.path.clone(),
        kind: m.kind.clone(),
        children: clone_modules(&m.children),
        structs: clone_structs(&m.structs),
        functions: clone_fns(&m.functions),
        enums: clone_enums(&m.enums),
    }
}

fn clone_modules(ms: &Vec<Module>) -> (r: Vec<Module>)
    ensures
        modules_model(r@) == modules_model(ms@),
    decreases ms, 1nat,
{
    let mut out: Vec<Module> = Vec::new();
    let mut i: usize = 0;
    while i < ms.len()
        invariant
            i <= ms.len(),
            out.len() == i,
            forall|k: int| 0 <= k < i ==> (#[trigger] out@[k])@ == ms@[k]@,
        decreases ms.len() - i,
    {
        out.push(clone_module(&ms[i]));
        i += 1;
    }
    out
}

impl Clone for RsModuleType {
    fn clone(&self) -> (r: Self)
        ensures
            r@ == self@,
    {
        match self {
            RsModuleType::CrateModule => RsModuleType::CrateModule,
            RsModuleType::SubModule { parent } => RsModuleType::SubModule {
                parent: parent.clone(),
            },
        }
    }
}

impl Clone for Module {
    fn clone(&self) -> (r: Self)
        ensures
            r@ == self@,
    {
        clone_module(self)
    }
}

/// Whether an attribute marks its item: it is written as a bare name or as a
/// name with a list, and that name is one of the markers.
pub open spec fn attr_matches(attr: RawAttr, markers: Seq<Seq<char>>) -> bool {
    attr.form != RawAttrForm::NameValue && attr.ident is Some && markers.contains(attr.ident->0@)
}

/// Whether one of the attributes marks the item.
pub open spec fn is_marked(attrs: Seq<RawAttr>, markers: Seq<Seq<char>>) -> bool {
    exists|i: int| 0 <= i < attrs.len() && attr_matches(#[trigger] attrs[i], markers)
}

/// Whether a declaration is kept: it is exported and marked.
pub open spec fn is_included(public: bool, attrs: Seq<RawAttr>, markers: Seq<Seq<char>>) -> bool {
    public && is_marked(attrs, markers)
}

/// What the scan of a file has found.
pub struct ScanModel {
    /// The kept structs.
    pub structs: Seq<TypeModel>,
    /// The kept functions.
    pub functions: Seq<TypeModel>,
    /// The kept enums.
    pub enums: Seq<TypeModel>,
    /// The names of the exported nested modules that are still to be read.
    pub pending: Seq<Seq<char>>,
    /// The failure that ended the scan.
    pub failure: Option<ErrorModel>,
}

/// A scan that has found nothing.
pub open spec fn empty_scan() -> ScanModel {
    ScanModel {
        structs: Seq::empty(),
        functions: Seq::empty(),
        enums: Seq::empty(),
        pending: Seq::empty(),
        failure: None,
    }
}

/// What one item adds to a scan. After a failure nothing is added. An
/// exported nested module is noted as pending. An exported and marked
/// function, struct or enum is extracted and kept, or its failure ends the
/// scan. Everything else is passed over.
pub open spec fn scan_item(found: ScanModel, item: RawItem, markers: Seq<Seq<char>>) -> ScanModel {
    if found.failure is Some {
        found
    } else {
        match item {
            RawItem::Mod(m) => if m.public {
                ScanModel { pending: found.pending.push(m.name@), ..found }
            } else {
                found
            },
            RawItem::Fn(f) => if is_included(f.public, f.attrs@, markers) {
                match crate::extract::fn_spec(f) {
                    Ok(t) => ScanModel { functions: found.functions.push(t), ..found },
                    Err(e) => ScanModel { failure: Some(e), ..found },
                }
            } else {
                found
            },
            RawItem::Struct(s) => if is_included(s.public, s.attrs@, markers) {
                match crate::extract::struct_spec(s) {
                    Ok(t) => ScanModel { structs: found.structs.push(t), ..found },
                    Err(e) => ScanModel { failure: Some(e), ..found },
                }
            } else {
                found
            },
            RawItem::Enum(e) => if is_included(e.public, e.attrs@, markers) {
                match crate::extract::enum_spec(e) {
                    Ok(t) => ScanModel { enums: found.enums.push(t), ..found },
                    Err(c) => ScanModel { failure: Some(c), ..found },
                }
            } else {
                found
            },
            RawItem::Other => found,
        }
    }
}

/// What the first `n` items add to a scan, in order.
pub open spec fn scan_items(
    found: ScanModel,
    items: Seq<RawItem>,
    markers: Seq<Seq<char>>,
    n: int,
) -> ScanModel
    decreases n,
{
    if n <= 0 {
        found
    } else {
        scan_item(scan_items(found, items, markers, n - 1), items[n - 1], markers)
    }
}

/// What the scan of a whole file adds.
pub open spec fn scan_file(found: ScanModel, file: RawFile, markers: Seq<Seq<char>>) -> ScanModel {
    scan_items(found, file.items@, markers, file.items@.len() as int)
}

/// Which functions a scan keeps: one that is exported and carries a marker
/// is extracted, and kept or fails the scan; one that is not exported, or
/// carries no marker, leaves the scan as it was, whatever its attributes and
/// whether or not it could be extracted.
pub proof fn lemma_scan_keeps_marked_exports(
    found: ScanModel,
    f: crate::raw::RawFn,
    markers: Seq<Seq<char>>,
)
    requires
        found.failure is None,
    ensures
        !f.public ==> scan_item(found, RawItem::Fn(f), markers) == found,
        !is_marked(f.attrs@, markers) ==> scan_item(found, RawItem::Fn(f), markers) == found,
        f.public && is_marked(f.attrs@, markers) ==> match crate::extract::fn_spec(f) {
            Ok(t) => scan_item(found, RawItem::Fn(f), markers) == (ScanModel {
                functions: found.functions.push(t),
                ..found
            }),
            Err(e) => scan_item(found, RawItem::Fn(f), markers) == (ScanModel {
                failure: Some(e),
                ..found
            }),
        },
{
}

/// An attribute that is written as a bare name or as a name with a list, and
/// whose name is a marker, marks its item wherever it stands among the
/// attributes; attributes with a value never do.
pub proof fn lemma_marked_by_any_attribute(attrs: Seq<RawAttr>, markers: Seq<Seq<char>>, i: int)
    requires
        0 <= i < attrs.len(),
    ensures
        attrs[i].form != RawAttrForm::NameValue && attrs[i].ident is Some && markers.contains(
            attrs[i].ident->0@,
        ) ==> is_marked(attrs, markers),
        (forall|k: int| 0 <= k < attrs.len() ==> (#[trigger] attrs[k]).form
            == RawAttrForm::NameValue) ==> !is_marked(attrs, markers),
        markers.len() == 0 ==> !is_marked(attrs, markers),
{
}

/// Whether `a` is the beginning of `b`.
pub open spec fn begins<T>(a: Seq<T>, b: Seq<T>) -> bool {
    a.len() <= b.len() && b.take(a.len() as int) == a
}

/// A scan keeps what it has found: what the first `m` items added to each
/// list stands at the beginning of what the first `n` items add, for
/// `m <= n`. So every list is in declaration order.
pub proof fn lemma_scan_keeps_order(
    found: ScanModel,
    items: Seq<RawItem>,
    markers: Seq<Seq<char>>,
    m: int,
    n: int,
)
    requires
        0 <= m <= n,
    ensures
        begins(
            scan_items(found, items, markers, m).structs,
            scan_items(found, items, markers, n).structs,
        ),
        begins(
            scan_items(found, items, markers, m).functions,
            scan_items(found, items, markers, n).functions,
        ),
        begins(
            scan_items(found, items, markers, m).enums,
            scan_items(found, items, markers, n).enums,
        ),
        begins(
            scan_items(found, items, markers, m).pending,
            scan_items(found, items, markers, n).pending,
        ),
    decreases n - m,
{
    let a = scan_items(found, items, markers, m);
    if m == n {
        assert(a.structs.take(a.structs.len() as int) =~= a.structs);
        assert(a.functions.take(a.functions.len() as int) =~= a.functions);
        assert(a.enums.take(a.enums.len() as int) =~= a.enums);
        assert(a.pending.take(a.pending.len() as int) =~= a.pending);
    } else {
        lemma_scan_keeps_order(found, items, markers, m, n - 1);
        let b = scan_items(found, items, markers, n - 1);
        let c = scan_items(found, items, markers, n);
        assert(c == scan_item(b, items[n - 1], markers));
        assert(begins(b.structs, c.structs)) by {
            assert(c.structs == b.structs || exists|t: TypeModel| c.structs == b.structs.push(t));
            assert(c.structs.take(b.structs.len() as int) =~= b.structs);
        }
        assert(begins(b.functions, c.functions)) by {
            assert(c.functions == b.functions || exists|t: TypeModel|
                c.functions == b.functions.push(t));
            assert(c.functions.take(b.functions.len() as int) =~= b.functions);
        }
        assert(begins(b.enums, c.enums)) by {
            assert(c.enums == b.enums || exists|t: TypeModel| c.enums == b.enums.push(t));
            assert(c.enums.take(b.enums.len() as int) =~= b.enums);
        }
        assert(begins(b.pending, c.pending)) by {
            assert(c.pending == b.pending || exists|t: Seq<char>| c.pending == b.pending.push(t));
            assert(c.pending.take(b.pending.len() as int) =~= b.pending);
        }
        assert(c.structs.take(a.structs.len() as int) =~= b.structs.take(a.structs.len() as int));
        assert(c.functions.take(a.functions.len() as int) =~= b.functions.take(
            a.functions.len() as int,
        ));
        assert(c.enums.take(a.enums.len() as int) =~= b.enums.take(a.enums.len() as int));
        assert(c.pending.take(a.pending.len() as int) =~= b.pending.take(a.pending.len() as int));
    }
}

/// A scan that has failed stays as it is: no later item is looked at.
pub proof fn lemma_scan_stops_at_failure(
    found: ScanModel,
    items: Seq<RawItem>,
    markers: Seq<Seq<char>>,
    n: int,
)
    requires
        found.failure is Some,
    ensures
        scan_items(found, items, markers, n) == found,
    decreases n,
{
    if n > 0 {
        lemma_scan_stops_at_failure(found, items, markers, n - 1);
    }
}

/// Builds one module: it is given a name and a path, scans the file of the
/// module, and holds what the scan found.
#[derive(Debug)]
pub struct ModuleBuilder {
    name: Option<String>,
    path: Option<String>,
    kind: RsModuleType,
    children: Vec<Module>,
    annotations: Vec<String>,
    structs: Vec<RsStruct>,
    functions: Vec<RsFn>,
    enums: Vec<RsEnum>,
    pending: Vec<String>,
    failure: Option<ConversionError>,
}

/// The mathematical value of a `ModuleBuilder`.
pub struct BuilderModel {
    pub name: Option<Seq<char>>,
    pub path: Option<Seq<char>>,
    pub kind: KindModel,
    pub markers: Seq<Seq<char>>,
    pub children: Seq<ModuleModel>,
    pub found: ScanModel,
}

impl View for ModuleBuilder {
    type V = BuilderModel;

    closed spec fn view(&self) -> BuilderModel {
        BuilderModel {
            name: crate::error::text_of(self.name),
            path: crate::error::text_of(self.path),
            kind: self.kind@,
            markers: crate::text::views_of(self.annotations@),
            children: modules_model(self.children@),
            found: ScanModel {
                structs: structs_model(self.structs@),
                functions: fns_model(self.functions@),
                enums: enums_model(self.enums@),
                pending: crate::text::views_of(self.pending@),
                failure: match self.failure {
                    Some(e) => Some(e@),
                    None => None,
                },
            },
        }
    }
}

/// The builder that has been given nothing but its markers.
pub open spec fn fresh_builder(markers: Seq<Seq<char>>) -> BuilderModel {
    BuilderModel {
        name: None,
        path: None,
        kind: KindModel::Root,
        markers: markers,
        children: Seq::empty(),
        found: empty_scan(),
    }
}

/// The module that a builder holds. A missing name or path counts as empty.
pub open spec fn built(b: BuilderModel) -> ModuleModel {
    ModuleModel {
        name: match b.name {
            Some(n) => n,
            None => Seq::empty(),
        },
        path: match b.path {
            Some(p) => p,
            None => Seq::empty(),
        },
        kind: b.kind,
        children: b.children,
        structs: b.found.structs,
        functions: b.found.functions,
        enums: b.found.enums,
    }
}

impl Module {
    /// A builder for a module tree whose declarations carry one of the
    /// attributes `annotations`.
    pub fn builder(annotations: &[&str]) -> (r: ModuleBuilder)
        ensures
            r@ == fresh_builder(crate::text::strs_of(annotations@)),
    {
        ModuleBuilder::new(annotations)
    }
}

impl ModuleBuilder {
    /// A builder that keeps the declarations that carry one of the attributes
    /// `annotation`.
    pub fn new(annotation: &[&str]) -> (r: Self)
        ensures
            r@ == fresh_builder(crate::text::strs_of(annotation@)),
    {
        let mut markers: Vec<String> = Vec::new();
        let mut i: usize = 0;
        while i < annotation.len()
            invariant
                i <= annotation.len(),
                markers.len() == i,
                forall|k: int| 0 <= k < i ==> (#[trigger] markers@[k])@ == annotation@[k]@,
            decreases annotation.len() - i,
        {
            markers.push(String::from_str(annotation[i]));
            i += 1;
        }
        let r = Self {
            name: None,
            path: None,
            kind: RsModuleType::CrateModule,
            children: Vec::new(),
            annotations: markers,
            structs: Vec::new(),
            functions: Vec::new(),
            enums: Vec::new(),
            pending: Vec::new(),
            failure: None,
        };
        proof {
            assert(crate::text::views_of(r.annotations@) =~= crate::text::strs_of(annotation@));
            assert(modules_model(r.children@) =~= Seq::empty());
            assert(structs_model(r.structs@) =~= Seq::empty());
            assert(fns_model(r.functions@) =~= Seq::empty());
            assert(enums_model(r.enums@) =~= Seq::empty());
            assert(crate::text::views_of(r.pending@) =~= Seq::empty());
        }
        r
    }

    /// Sets the name of the module.
    pub fn name(&mut self, name: String) -> (r: &mut Self)
        ensures
            *final(self) == *final(r),
            r@ == (BuilderModel { name: Some(name@), ..old(self)@ }),
    {
        self.name = Some(name);
        self
    }

    /// Sets the directory in which the module's file is looked for.
    pub fn path(&mut self, path: String) -> (r: &mut Self)
        ensures
            *final(self) == *final(r),
            r@ == (BuilderModel { path: Some(path@), ..old(self)@ }),
    {
        self.path = Some(path);
        self
    }

    /// Whether `attr` marks its item for this builder.
    pub fn should_include(&self, attr: &RawAttr) -> (r: bool)
        ensures
            r == attr_matches(*attr, self@.markers),
    {
        match attr.form {
            RawAttrForm::NameValue => false,
            _ => match &attr.ident {
                None => false,
                Some(id) => {
                    let ghost markers = crate::text::views_of(self.annotations@);
                    let mut i: usize = 0;
                    while i < self.annotations.len()
                        invariant
                            i <= self.annotations.len(),
                            markers == crate::text::views_of(self.annotations@),
                            markers.len() == self.annotations.len(),
                            attr.form != RawAttrForm::NameValue,
                            attr.ident == Some(*id),
                            forall|k: int| 0 <= k < i ==> markers[k] != id@,
                        decreases self.annotations.len() - i,
                    {
                        if same_text(self.annotations[i].as_str(), id.as_str()) {
                            assert(markers[i as int] == id@);
                            return true;
                        }
                        i += 1;
                    }
                    false
                },
            },
        }
    }

    /// Whether one of `attrs` marks its item for this builder.
    pub fn is_marked(&self, attrs: &Vec<RawAttr>) -> (r: bool)
        ensures
            r == is_marked(attrs@, self@.markers),
    {
        let mut i: usize = 0;
        while i < attrs.len()
            invariant
                i <= attrs.len(),
                forall|k: int| 0 <= k < i ==> !attr_matches(#[trigger] attrs@[k], self@.markers),
            decreases attrs.len() - i,
        {
            if self.should_include(&attrs[i]) {
                return true;
            }
            i += 1;
        }
        false
    }

    /// Takes one item into account.
    fn handle_item(&mut self, item: &RawItem)
        ensures
            final(self)@ == (BuilderModel {
                found: scan_item(old(self)@.found, *item, old(self)@.markers),
                ..old(self)@
            }),
    {
        if self.failure.is_some() {
            return ;
        }
        match item {
            RawItem::Mod(m) => {
                if m.public {
                    let ghost before = self.pending@;
                    self.pending.push(m.name.clone());
                    assert(crate::text::views_of(self.pending@) =~= crate::text::views_of(
                        before,
                    ).push(m.name@));
                }
            },
            RawItem::Fn(f) => {
                if f.public && self.is_marked(&f.attrs) {
                    match RsFn::try_from(f) {
                        Ok(x) => {
                            let ghost before = self.functions@;
                            self.functions.push(x);
                            assert(fns_model(self.functions@) =~= fns_model(before).push(x@));
                        },
                        Err(e) => {
                            self.failure = Some(e);
                        },
                    }
                }
            },
            RawItem::Struct(s) => {
                if s.public && self.is_marked(&s.attrs) {
                    match RsStruct::try_from(s) {
                        Ok(x) => {
                            let ghost before = self.structs@;
                            self.structs.push(x);
                            assert(structs_model(self.structs@) =~= structs_model(before).push(
                                x@,
                            ));
                        },
                        Err(e) => {
                            self.failure = Some(e);
                        },
                    }
                }
            },
            RawItem::Enum(e) => {
                if e.public && self.is_marked(&e.attrs) {
                    match RsEnum::try_from(e) {
                        Ok(x) => {
                            let ghost before = self.enums@;
                            self.enums.push(x);
                            assert(enums_model(self.enums@) =~= enums_model(before).push(x@));
                        },
                        Err(c) => {
                            self.failure = Some(c);
                        },
                    }
                }
            },
            RawItem::Other => {},
        }
    }

    /// Scans a parsed file in declaration order: keeps what is exported and
    /// marked, notes the exported nested modules, and stops at the first
    /// declaration that cannot be extracted.
    pub fn load(&mut self, file: &RawFile)
        ensures
            final(self)@ == (BuilderModel {
                found: scan_file(old(self)@.found, *file, old(self)@.markers),
                ..old(self)@
            }),
    {
        let mut i: usize = 0;
        while i < file.items.len()
            invariant
                i <= file.items.len(),
                self@ == (BuilderModel {
                    found: scan_items(
                        old(self)@.found,
                        file.items@,
                        old(self)@.markers,
                        i as int,
                    ),
                    ..old(self)@
                }),
            decreases file.items.len() - i,
        {
            self.handle_item(&file.items[i]);
            i += 1;
        }
    }

    /// A copy of the module that the builder holds. A missing name or path
    /// is empty.
    pub fn build(&self) -> (r: Module)
        ensures
            r@ == built(self@),
    {
        Module {
            name: match &self.name {
                Some(n) => n.clone(),
                None => String::new(),
            },
            path: match &self.path {
                Some(p) => p.clone(),
                None => String::new(),
            },
            kind: self.kind.clone(),
            children: clone_modules(&self.children),
            structs: clone_structs(&self.structs),
            functions: clone_fns(&self.functions),
            enums: clone_enums(&self.enums),
        }
    }

    /// The module that the builder holds.
    fn finish(self) -> (r: Module)
        ensures
            r@ == built(self@),
    {
        Module {
            name: match self.name {
                Some(n) => n,
                None => String::new(),
            },
            path: match self.path {
                Some(p) => p,
                None => String::new(),
            },
            kind: self.kind,
            children: self.children,
            structs: self.structs,
            functions: self.functions,
            enums: self.enums,
        }
    }
}

/// The file that is tried first for the module `name` in `path`.
pub open spec fn primary_file(path: Seq<char>, name: Seq<char>) -> Seq<char> {
    path + "/"@ + name + ".rs"@
}

/// The file that is tried if the first cannot be read.
pub open spec fn fallback_file(path: Seq<char>, name: Seq<char>) -> Seq<char> {
    path + "/"@ + name + ".mod.rs"@
}

/// The text or nothing.
pub open spec fn or_empty(o: Option<Seq<char>>) -> Seq<char> {
    match o {
        Some(s) => s,
        None => Seq::empty(),
    }
}

/// The files that hold the source of one module.
#[derive(Debug, PartialEq, Eq, Hash)]
pub struct Request {
    /// The name of the module.
    pub name: String,
    /// The directory.
    pub path: String,
    /// The file to try first.
    pub primary: String,
    /// The file to try if the first cannot be read.
    pub fallback: String,
}

/// The mathematical value of a `Request`.
pub struct RequestModel {
    pub name: Seq<char>,
    pub path: Seq<char>,
    pub primary: Seq<char>,
    pub fallback: Seq<char>,
}

impl View for Request {
    type V = RequestModel;

    open spec fn view(&self) -> RequestModel {
        RequestModel {
            name: self.name@,
            path: self.path@,
            primary: self.primary@,
            fallback: self.fallback@,
        }
    }
}

/// The request for the module that `b` builds.
pub open spec fn request_for(b: BuilderModel) -> RequestModel {
    RequestModel {
        name: or_empty(b.name),
        path: or_empty(b.path),
        primary: primary_file(or_empty(b.path), or_empty(b.name)),
        fallback: fallback_file(or_empty(b.path), or_empty(b.name)),
    }
}

/// A resolution that waits for the source of one module. `stack` holds the
/// builders of the modules around it, outermost first.
#[derive(Debug)]
pub struct Resolver {
    stack: Vec<ModuleBuilder>,
    awaited: ModuleBuilder,
}

/// The mathematical value of a `Resolver`.
pub struct ResolverModel {
    pub stack: Seq<BuilderModel>,
    pub awaited: BuilderModel,
}

/// The values of `v`, in order.
pub closed spec fn builders_model(v: Seq<ModuleBuilder>) -> Seq<BuilderModel> {
    Seq::new(v.len(), |i: int| v[i]@)
}

impl View for Resolver {
    type V = ResolverModel;

    closed spec fn view(&self) -> ResolverModel {
        ResolverModel { stack: builders_model(self.stack@), awaited: self.awaited@ }
    }
}

/// How far a resolution has come.
#[derive(Debug)]
pub enum Progress {
    /// The source of a module is needed. The caller reads `request.primary`,
    /// or else `request.fallback`, and hands the text to `resume`.
    Read { request: Request, resume: Resolver },
    /// The tree is assembled.
    Done(Module),
    /// The resolution failed. No part of the tree is returned.
    Failed(ModuleError),
}

/// The mathematical value of a `Progress`.
pub enum ProgressModel {
    Read { request: RequestModel, resume: ResolverModel },
    Done(ModuleModel),
    Failed(ModuleErrorModel),
}

impl View for Progress {
    type V = ProgressModel;

    open spec fn view(&self) -> ProgressModel {
        match self {
            Progress::Read { request, resume } => ProgressModel::Read {
                request: request@,
                resume: resume@,
            },
            Progress::Done(m) => ProgressModel::Done(m@),
            Progress::Failed(e) => ProgressModel::Failed(e@),
        }
    }
}

/// The builder for the module `name` that `parent` declares.
pub open spec fn child_builder(parent: BuilderModel, name: Seq<char>) -> BuilderModel {
    BuilderModel {
        name: Some(name),
        path: parent.path,
        kind: KindModel::Sub { parent: or_empty(parent.name) },
        markers: parent.markers,
        children: Seq::empty(),
        found: empty_scan(),
    }
}

/// `b` without its first pending module.
pub open spec fn without_first_pending(b: BuilderModel) -> BuilderModel {
    BuilderModel { found: ScanModel { pending: b.found.pending.skip(1), ..b.found }, ..b }
}

/// What follows once the module of `cur` is scanned and `stack` holds the
/// builders around it. While `cur` has a pending nested module, the first of
/// them is asked for. Else a failure of the scan fails the resolution. Else
/// the module is complete: it is the tree if nothing is around it, and
/// otherwise becomes the last child of the builder around it, which is looked
/// at in the same way.
pub open spec fn settle(stack: Seq<BuilderModel>, cur: BuilderModel) -> ProgressModel
    decreases stack.len(),
{
    if cur.found.pending.len() > 0 {
        let rest = without_first_pending(cur);
        let child = child_builder(rest, cur.found.pending[0]);
        ProgressModel::Read {
            request: request_for(child),
            resume: ResolverModel { stack: stack.push(rest), awaited: child },
        }
    } else if cur.found.failure is Some {
        ProgressModel::Failed(ModuleErrorModel::Conversion(cur.found.failure->0))
    } else if stack.len() == 0 {
        ProgressModel::Done(built(cur))
    } else {
        let parent = stack.last();
        settle(
            stack.drop_last(),
            BuilderModel { children: parent.children.push(built(cur)), ..parent },
        )
    }
}

/// What follows when the awaited source arrives as `file`, or does not.
/// Without a file the module is invalid; with one, it is scanned.
pub open spec fn accept_spec(r: ResolverModel, file: Option<RawFile>) -> ProgressModel {
    match file {
        None => ProgressModel::Failed(
            ModuleErrorModel::InvalidModule {
                name: or_empty(r.awaited.name),
                path: or_empty(r.awaited.path),
            },
        ),
        Some(f) => settle(
            r.stack,
            BuilderModel {
                found: scan_file(r.awaited.found, f, r.awaited.markers),
                ..r.awaited
            },
        ),
    }
}

/// Whether `after` is where a resolution that stood at `before` stands once
/// `text` is supplied. Without a text, and with a text that the parser does
/// not accept, the module is invalid. With a text that the parser accepts,
/// the resolution has gone on with a parsed file, none of whose types nests
/// deeper than the text has characters.
pub open spec fn supplied(
    before: ResolverModel,
    text: Option<Seq<char>>,
    after: ProgressModel,
) -> bool {
    match text {
        None => after == accept_spec(before, None),
        Some(t) => if crate::parse::source_parses(t) {
            exists|file: RawFile|
                after == accept_spec(before, Some(file)) && crate::raw::file_nests_within(
                    file,
                    t.len(),
                )
        } else {
            after == accept_spec(before, None)
        },
    }
}

/// Which of the two files of a module is its source: the first if it could
/// be read, else the second.
pub fn source_text<'a>(primary: Option<&'a str>, fallback: Option<&'a str>) -> (r: Option<&'a str>)
    ensures
        r == (match primary {
            Some(t) => Some(t),
            None => fallback,
        }),
{
    match primary {
        Some(t) => Some(t),
        None => fallback,
    }
}

/// How the resolution of what `b` builds begins: `MissingName` without a
/// name, else `MissingPath` without a path, else the request for its source.
pub open spec fn begin_spec(b: BuilderModel) -> ProgressModel {
    if b.name is None {
        ProgressModel::Failed(ModuleErrorModel::MissingName)
    } else if b.path is None {
        ProgressModel::Failed(ModuleErrorModel::MissingPath)
    } else {
        ProgressModel::Read {
            request: request_for(b),
            resume: ResolverModel { stack: Seq::empty(), awaited: b },
        }
    }
}

fn text_or_empty(o: &Option<String>) -> (r: String)
    ensures
        r@ == or_empty(crate::error::text_of(*o)),
{
    match o {
        Some(s) => s.clone(),
        None => String::new(),
    }
}

fn copy_markers(v: &Vec<String>) -> (r: Vec<String>)
    ensures
        crate::text::views_of(r@) == crate::text::views_of(v@),
{
    let mut out: Vec<String> = Vec::new();
    let mut i: usize = 0;
    while i < v.len()
        invariant
            i <= v.len(),
            out.len() == i,
            forall|k: int| 0 <= k < i ==> (#[trigger] out@[k])@ == v@[k]@,
        decreases v.len() - i,
    {
        out.push(v[i].clone());
        i += 1;
    }
    out
}

impl ModuleBuilder {
    /// The request for the source of the module.
    pub fn request(&self) -> (r: Request)
        ensures
            r@ == request_for(self@),
    {
        let name = text_or_empty(&self.name);
        let path = text_or_empty(&self.path);
        let mut primary = path.clone();
        primary.append("/");
        primary.append(name.as_str());
        let mut fallback = primary.clone();
        primary.append(".rs");
        fallback.append(".mod.rs");
        Request { name, path, primary, fallback }
    }

    /// Begins the resolution of the tree whose root this builder describes.
    pub fn begin(self) -> (r: Progress)
        ensures
            r@ == begin_spec(self@),
    {
        if self.name.is_none() {
            return Progress::Failed(ModuleError::MissingName);
        }
        if self.path.is_none() {
            return Progress::Failed(ModuleError::MissingPath);
        }
        let request = self.request();
        let resume = Resolver { stack: Vec::new(), awaited: self };
        assert(builders_model(resume.stack@) =~= Seq::empty());
        Progress::Read { request, resume }
    }

    /// The builder for the nested module `name`.
    fn child(&self, name: String) -> (r: ModuleBuilder)
        ensures
            r@ == child_builder(self@, name@),
    {
        let r = ModuleBuilder {
            name: Some(name),
            path: crate::error::copy_text(&self.path),
            kind: RsModuleType::SubModule { parent: text_or_empty(&self.name) },
            children: Vec::new(),
            annotations: copy_markers(&self.annotations),
            structs: Vec::new(),
            functions: Vec::new(),
            enums: Vec::new(),
            pending: Vec::new(),
            failure: None,
        };
        proof {
            assert(modules_model(r.children@) =~= Seq::empty());
            assert(structs_model(r.structs@) =~= Seq::empty());
            assert(fns_model(r.functions@) =~= Seq::empty());
            assert(enums_model(r.enums@) =~= Seq::empty());
            assert(crate::text::views_of(r.pending@) =~= Seq::empty());
        }
        r
    }
}

impl Resolver {
    /// The request that is waited for.
    pub fn request(&self) -> (r: Request)
        ensures
            r@ == request_for(self@.awaited),
    {
        self.awaited.request()
    }

    /// Goes on with the text of the awaited module's source, or with the news
    /// that neither of its files could be read. The text is parsed; a text
    /// that the parser does not accept counts as none, and a text that it
    /// accepts is gone on with as the file that was read from it.
    pub fn supply(self, text: Option<&str>) -> (r: Progress)
        ensures
            supplied(
                self@,
                match text {
                    Some(t) => Some(t@),
                    None => None,
                },
                r@,
            ),
    {
        let file = match text {
            Some(t) => parse_source(t),
            None => None,
        };
        self.accept(file.as_ref())
    }

    /// Goes on with the texts of the two files of the awaited module, each
    /// `None` if it could not be read: with the first if there is one, and
    /// with the second only if there is no first.
    pub fn supply_either(self, primary: Option<&str>, fallback: Option<&str>) -> (r: Progress)
        ensures
            supplied(
                self@,
                match primary {
                    Some(t) => Some(t@),
                    None => match fallback {
                        Some(t) => Some(t@),
                        None => None,
                    },
                },
                r@,
            ),
    {
        self.supply(source_text(primary, fallback))
    }

    /// Goes on with the parsed source of the awaited module, or with the news
    /// that there is none.
    pub fn accept(self, file: Option<&RawFile>) -> (r: Progress)
        ensures
            r@ == accept_spec(
                self@,
                match file {
                    Some(f) => Some(*f),
                    None => None,
                },
            ),
    {
        let ghost given: Option<RawFile> = match file {
            Some(f) => Some(*f),
            None => None,
        };
        let Resolver { stack, awaited } = self;
        let mut stack = stack;
        let mut cur = awaited;
        match file {
            None => {
                return Progress::Failed(
                    ModuleError::InvalidModule {
                        name: text_or_empty(&cur.name),
                        path: text_or_empty(&cur.path),
                    },
                );
            },
            Some(f) => {
                cur.load(f);
            },
        }
        loop
            invariant
                given == (match file {
                    Some(f) => Some(*f),
                    None => None,
                }),
                settle(builders_model(stack@), cur@) == accept_spec(self@, given),
            decreases stack.len(),
        {
            if cur.pending.len() > 0 {
                let ghost names = cur.pending@;
                let name = cur.pending.remove(0);
                proof {
                    assert(crate::text::views_of(cur.pending@) =~= crate::text::views_of(
                        names,
                    ).skip(1));
                }
                let child = cur.child(name);
                let request = child.request();
                let ghost outer = stack@;
                stack.push(cur);
                assert(builders_model(stack@) =~= builders_model(outer).push(cur@));
                return Progress::Read { request, resume: Resolver { stack, awaited: child } };
            }
            if cur.failure.is_some() {
                let e = cur.failure.unwrap();
                return Progress::Failed(ModuleError::Conversion(e));
            }
            if stack.len() == 0 {
                return Progress::Done(cur.finish());
            }
            let ghost outer = stack@;
            let module = cur.finish();
            let mut parent = stack.pop().unwrap();
            let ghost kids = parent.children@;
            parent.children.push(module);
            proof {
                assert(builders_model(stack@) =~= builders_model(outer).drop_last());
                assert(modules_model(parent.children@) =~= modules_model(kids).push(module@));
            }
            cur = parent;
        }
    }
}

/// The parsed source of one module, held in memory.
#[derive(Debug, PartialEq, Eq, Hash)]
pub struct Source {
    /// The name of the module.
    pub name: String,
    /// Its parsed source.
    pub file: RawFile,
}

/// The source of the module `name` among the first `n` of `sources`: that of
/// the first entry with this name.
pub open spec fn source_among(sources: Seq<Source>, name: Seq<char>, n: int) -> Option<RawFile>
    decreases n,
{
    if n <= 0 {
        None
    } else {
        match source_among(sources, name, n - 1) {
            Some(f) => Some(f),
            None => if sources[n - 1].name@ == name {
                Some(sources[n - 1].file)
            } else {
                None
            },
        }
    }
}

/// The answers that `sources` give: for each name the source of the first
/// entry with that name, if there is one.
pub open spec fn answers_of(sources: Seq<Source>) -> spec_fn(Seq<char>) -> Option<RawFile> {
    |name: Seq<char>| source_among(sources, name, sources.len() as int)
}

/// The source of the module `name` among `sources`.
pub fn find_source<'a>(sources: &'a Vec<Source>, name: &str) -> (r: Option<&'a RawFile>)
    ensures
        match r {
            Some(f) => answers_of(sources@)(name@) == Some(*f),
            None => answers_of(sources@)(name@) is None,
        },
{
    let mut i: usize = 0;
    while i < sources.len()
        invariant
            i <= sources.len(),
            source_among(sources@, name@, i as int) is None,
        decreases sources.len() - i,
    {
        if same_text(sources[i].name.as_str(), name) {
            proof {
                lemma_source_found(sources@, name@, i + 1, sources.len() as int);
            }
            return Some(&sources[i].file);
        }
        i += 1;
    }
    None
}

proof fn lemma_source_found(sources: Seq<Source>, name: Seq<char>, n: int, m: int)
    requires
        0 <= n <= m,
        source_among(sources, name, n) is Some,
    ensures
        source_among(sources, name, m) == source_among(sources, name, n),
    decreases m - n,
{
    if n < m {
        lemma_source_found(sources, name, n, m - 1);
    }
}

impl Progress {
    /// Answers up to `steps` requests from the sources held in `sources`,
    /// and returns where the resolution then stands.
    pub fn run(self, sources: &Vec<Source>, steps: usize) -> (r: Progress)
        ensures
            r@ == crate::tree::run_spec(answers_of(sources@), self@, steps as nat),
        decreases steps,
    {
        match self {
            Progress::Read { request, resume } => {
                if steps == 0 {
                    Progress::Read { request, resume }
                } else {
                    let file = find_source(sources, request.name.as_str());
                    let next = resume.accept(file);
                    next.run(sources, steps - 1)
                }
            },
            other => other,
        }
    }
}

/// Begins the resolution of the module tree whose root is the module `name`
/// in the directory `path`, keeping the declarations that carry one of
/// `marker_attributes`.
pub fn resolve(name: &str, path: &str, marker_attributes: &[&str]) -> (r: Progress)
    ensures
        r@ == begin_spec(
            BuilderModel {
                name: Some(name@),
                path: Some(path@),
                ..fresh_builder(crate::text::strs_of(marker_attributes@))
            },
        ),
{
    let mut b = ModuleBuilder::new(marker_attributes);
    b.name(String::from_str(name));
    b.path(String::from_str(path));
    b.begin()
}

/// A module as a plain record: its declarations by kind and its nested
/// modules.
#[derive(Debug, PartialEq, Eq, Hash)]
pub struct RsModule {
    /// The name of the module.
    pub name: String,
    /// Where it stands in the tree.
    pub ty: RsModuleType,
    /// The nested modules.
    pub submodules: Vec<RsModule>,
    /// The structs.
    pub structs: Vec<RsStruct>,
    /// The enums.
    pub enums: Vec<RsEnum>,
    /// The functions.
    pub funcs: Vec<RsFn>,
}

/// Those of the first `n` of `ts` that are structs, in order.
pub open spec fn structs_among(ts: Seq<RsType>, n: int) -> Seq<TypeModel>
    decreases n,
{
    if n <= 0 {
        Seq::empty()
    } else if ts[n - 1] is Struct {
        structs_among(ts, n - 1).push(ts[n - 1]@)
    } else {
        structs_among(ts, n - 1)
    }
}

/// Those of the first `n` of `ts` that are enums, in order.
pub open spec fn enums_among(ts: Seq<RsType>, n: int) -> Seq<TypeModel>
    decreases n,
{
    if n <= 0 {
        Seq::empty()
    } else if ts[n - 1] is Enum {
        enums_among(ts, n - 1).push(ts[n - 1]@)
    } else {
        enums_among(ts, n - 1)
    }
}

/// Those of the first `n` of `ts` that are functions, in order.
pub open spec fn fns_among(ts: Seq<RsType>, n: int) -> Seq<TypeModel>
    decreases n,
{
    if n <= 0 {
        Seq::empty()
    } else if ts[n - 1] is Func {
        fns_among(ts, n - 1).push(ts[n - 1]@)
    } else {
        fns_among(ts, n - 1)
    }
}

impl RsModule {
    /// A module with this name and these nested modules, and with the
    /// structs, the enums and the functions among `types`, each kind in the
    /// order in which it stands there. Types of other kinds are left out.
    pub fn new(name: String, ty: RsModuleType, submodules: Vec<RsModule>, types: Vec<RsType>) -> (r:
        RsModule)
        ensures
            r.name == name,
            r.ty == ty,
            r.submodules == submodules,
            structs_model(r.structs@) == structs_among(types@, types@.len() as int),
            enums_model(r.enums@) == enums_among(types@, types@.len() as int),
            fns_model(r.funcs@) == fns_among(types@, types@.len() as int),
    {
        let mut structs: Vec<RsStruct> = Vec::new();
        let mut enums: Vec<RsEnum> = Vec::new();
        let mut funcs: Vec<RsFn> = Vec::new();
        let ghost all = types@;
        for ty in it: types
            invariant
                it.seq() == all,
                structs_model(structs@) == structs_among(all, it.index() as int),
                enums_model(enums@) == enums_among(all, it.index() as int),
                fns_model(funcs@) == fns_among(all, it.index() as int),
        {
            match ty {
                RsType::Struct(s) => {
                    structs.push(s);
                },
                RsType::Enum(e) => {
                    enums.push(e);
                },
                RsType::Func(f) => {
                    funcs.push(f);
                },
                _ => {},
            }
        }
        RsModule { name, ty, submodules, structs, enums, funcs }
    }
}

} // verus!
