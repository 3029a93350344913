//! The two visualizations a client can request: the class diagram of a set
//! of contracts and the storage layout of one contract.

use vstd::prelude::*;
use crate::internal::{Error, Sol2Uml};
use crate::platform::{ends_with_parent_dir, file_name, path_file_name, plain_file_name};
use crate::response::{field_mask_name, mask_selects, OutputMask, ResponseFieldMask};

verus! {

/// A request for the class diagram of some contracts.
#[derive(Debug, Clone, PartialEq, Eq)]
pub struct VisualizeContractsRequest {
    /// The source files: relative path and content.
    pub sources: Vec<(String, String)>,
    /// The diagram kinds wanted.
    pub output_mask: OutputMask,
}

/// Why a class diagram could not be made.
#[derive(Debug, Clone, PartialEq, Eq)]
pub enum VisualizeContractsError {
    Internal(String),
    Execution(String),
}

/// A request for the storage layout of one contract.
#[derive(Debug, Clone, PartialEq, Eq)]
pub struct VisualizeStorageRequest {
    /// The source files: relative path and content.
    pub sources: Vec<(String, String)>,
    /// The path of the file that holds the contract.
    pub file_path: String,
    /// The name of the contract.
    pub contract_name: String,
    /// The diagram kinds wanted.
    pub output_mask: OutputMask,
}

/// Why a storage layout could not be made.
#[derive(Debug, Clone, PartialEq, Eq)]
pub enum VisualizeStorageError {
    Internal(String),
    InvalidFileName,
    Execution(String),
}

/// The error a class diagram request reports for a failed step.
pub open spec fn contracts_error_from(e: Error) -> VisualizeContractsError {
    match e {
        Error::Internal(m) => VisualizeContractsError::Internal(m),
        Error::Sol2Uml(m) => VisualizeContractsError::Execution(m),
    }
}

/// The error a storage layout request reports for a failed step.
pub open spec fn storage_error_from(e: Error) -> VisualizeStorageError {
    match e {
        Error::Internal(m) => VisualizeStorageError::Internal(m),
        Error::Sol2Uml(m) => VisualizeStorageError::Execution(m),
    }
}

impl From<Error> for VisualizeContractsError {
    fn from(error: Error) -> (r: VisualizeContractsError)
        ensures
            match error {
                Error::Internal(m) => r == VisualizeContractsError::Internal(m),
                Error::Sol2Uml(m) => r == VisualizeContractsError::Execution(m),
            },
    {
        match error {
            Error::Internal(m) => VisualizeContractsError::Internal(m),
            Error::Sol2Uml(m) => VisualizeContractsError::Execution(m),
        }
    }
}

impl vstd::std_specs::convert::FromSpecImpl<Error> for VisualizeContractsError {
    open spec fn obeys_from_spec() -> bool {
        true
    }

    open spec fn from_spec(error: Error) -> VisualizeContractsError {
        contracts_error_from(error)
    }
}

impl From<Error> for VisualizeStorageError {
    fn from(error: Error) -> (r: VisualizeStorageError)
        ensures
            match error {
                Error::Internal(m) => r == VisualizeStorageError::Internal(m),
                Error::Sol2Uml(m) => r == VisualizeStorageError::Execution(m),
            },
    {
        match error {
            Error::Internal(m) => VisualizeStorageError::Internal(m),
            Error::Sol2Uml(m) => VisualizeStorageError::Execution(m),
        }
    }
}

impl vstd::std_specs::convert::FromSpecImpl<Error> for VisualizeStorageError {
    open spec fn obeys_from_spec() -> bool {
        true
    }

    open spec fn from_spec(error: Error) -> VisualizeStorageError {
        storage_error_from(error)
    }
}

/// The text of a class diagram error.
pub open spec fn contracts_error_message(e: VisualizeContractsError) -> Seq<char> {
    match e {
        VisualizeContractsError::Internal(m) => "internal error: "@ + m@,
        VisualizeContractsError::Execution(m) => "execution error: "@ + m@,
    }
}

/// The text of a storage layout error.
pub open spec fn storage_error_message(e: VisualizeStorageError) -> Seq<char> {
    match e {
        VisualizeStorageError::Internal(m) => "internal error: "@ + m@,
        VisualizeStorageError::InvalidFileName => "file path should contain file name"@,
        VisualizeStorageError::Execution(m) => "execution error: "@ + m@,
    }
}

impl VisualizeContractsError {
    /// The error's text.
    pub fn message(&self) -> (r: String)
        ensures
            r@ == contracts_error_message(*self),
    {
        match self {
            VisualizeContractsError::Internal(m) => String::from_str("internal error: ").concat(
                m.as_str(),
            ),
            VisualizeContractsError::Execution(m) => String::from_str(
                "execution error: ",
            ).concat(m.as_str()),
        }
    }
}

impl VisualizeStorageError {
    /// The error's text.
    pub fn message(&self) -> (r: String)
        ensures
            r@ == storage_error_message(*self),
    {
        match self {
            VisualizeStorageError::Internal(m) => String::from_str("internal error: ").concat(
                m.as_str(),
            ),
            VisualizeStorageError::InvalidFileName => String::from_str(
                "file path should contain file name",
            ),
            VisualizeStorageError::Execution(m) => String::from_str(
                "execution error: ",
            ).concat(m.as_str()),
        }
    }
}

/// One drawing to make: its kind, the `sol2uml` command line that makes it,
/// and the file the tool writes it to.
#[derive(Debug, PartialEq, Eq)]
pub struct Drawing {
    pub kind: ResponseFieldMask,
    pub command: Sol2Uml,
    pub output_file: String,
}

/// The kinds of drawing a mask asks for, SVG first.
pub open spec fn wanted_kinds(mask: Set<ResponseFieldMask>) -> Seq<ResponseFieldMask> {
    (if mask_selects(mask, ResponseFieldMask::Svg) {
        seq![ResponseFieldMask::Svg]
    } else {
        Seq::empty()
    }) + (if mask_selects(mask, ResponseFieldMask::Png) {
        seq![ResponseFieldMask::Png]
    } else {
        Seq::empty()
    })
}

/// The kinds of some drawings, in order.
pub open spec fn drawing_kinds(drawings: Seq<Drawing>) -> Seq<ResponseFieldMask> {
    drawings.map_values(|d: Drawing| d.kind)
}

/// The file a drawing of the given kind goes to.
pub open spec fn output_for(
    kind: ResponseFieldMask,
    svg_file: Seq<char>,
    png_file: Seq<char>,
) -> Seq<char> {
    match kind {
        ResponseFieldMask::Svg => svg_file,
        ResponseFieldMask::Png => png_file,
    }
}

/// The `sol2uml` arguments that draw the class diagram of the sources in
/// `base_dir` in the format `kind` into `output_file`.
pub open spec fn class_diagram_args(
    base_dir: Seq<char>,
    kind: ResponseFieldMask,
    output_file: Seq<char>,
) -> Seq<Seq<char>> {
    seq![
        "class"@,
        base_dir,
        "--hideFilename"@,
        "-f"@,
        field_mask_name(kind),
        "-o"@,
        output_file,
    ]
}

/// The format options of a storage layout drawing: none for SVG, the tool's
/// default format, and `-f png` for PNG.
pub open spec fn storage_format_args(kind: ResponseFieldMask) -> Seq<Seq<char>> {
    match kind {
        ResponseFieldMask::Svg => Seq::empty(),
        ResponseFieldMask::Png => seq!["-f"@, field_mask_name(kind)],
    }
}

/// The `sol2uml` arguments that draw the storage layout of the contract
/// `contract_name`, found in the file named `file_name` among the sources in
/// `base_dir`, in the format `kind` into `output_file`.
pub open spec fn storage_diagram_args(
    base_dir: Seq<char>,
    contract_name: Seq<char>,
    file_name: Seq<char>,
    kind: ResponseFieldMask,
    output_file: Seq<char>,
) -> Seq<Seq<char>> {
    seq!["storage"@, base_dir, "-c"@, contract_name, "-cf"@, file_name] + storage_format_args(
        kind,
    ) + seq!["-o"@, output_file]
}

/// The drawings a class diagram request asks for: one per kind its mask
/// selects (an empty mask selects both), SVG first.
pub open spec fn class_drawings_planned(
    drawings: Seq<Drawing>,
    mask: Set<ResponseFieldMask>,
    base_dir: Seq<char>,
    svg_file: Seq<char>,
    png_file: Seq<char>,
) -> bool {
    &&& drawing_kinds(drawings) == wanted_kinds(mask)
    &&& forall|i: int|
        0 <= i < drawings.len() ==> {
            let d = #[trigger] drawings[i];
            &&& d.output_file@ == output_for(d.kind, svg_file, png_file)
            &&& d.command@ == class_diagram_args(base_dir, d.kind, d.output_file@)
        }
}

/// The drawings a storage layout request asks for: one per kind its mask
/// selects (an empty mask selects both), SVG first.
pub open spec fn storage_drawings_planned(
    drawings: Seq<Drawing>,
    mask: Set<ResponseFieldMask>,
    base_dir: Seq<char>,
    contract_name: Seq<char>,
    file_name: Seq<char>,
    svg_file: Seq<char>,
    png_file: Seq<char>,
) -> bool {
    &&& drawing_kinds(drawings) == wanted_kinds(mask)
    &&& forall|i: int|
        0 <= i < drawings.len() ==> {
            let d = #[trigger] drawings[i];
            &&& d.output_file@ == output_for(d.kind, svg_file, png_file)
            &&& d.command@ == storage_diagram_args(
                base_dir,
                contract_name,
                file_name,
                d.kind,
                d.output_file@,
            )
        }
}

/// A class diagram drawing reads the folder of the sources, hides file
/// names, asks for the drawing's own format and writes the drawing's own
/// file: `class`, the folder, `--hideFilename`, `-f` and the format's name,
/// `-o` and the output file.
pub proof fn lemma_class_diagram_args(
    base_dir: Seq<char>,
    kind: ResponseFieldMask,
    output_file: Seq<char>,
)
    ensures
        class_diagram_args(base_dir, kind, output_file).len() == 7,
        class_diagram_args(base_dir, kind, output_file)[0] == "class"@,
        class_diagram_args(base_dir, kind, output_file)[1] == base_dir,
        class_diagram_args(base_dir, kind, output_file)[2] == "--hideFilename"@,
        class_diagram_args(base_dir, kind, output_file)[3] == "-f"@,
        class_diagram_args(base_dir, kind, output_file)[4] == field_mask_name(kind),
        class_diagram_args(base_dir, kind, output_file)[5] == "-o"@,
        class_diagram_args(base_dir, kind, output_file)[6] == output_file,
{
}

/// A storage layout drawing names the contract verbatim after `-c`, its
/// file name after `-cf` and the output file last after `-o`; an SVG drawing
/// has no other option (SVG is the tool's default), a PNG drawing adds
/// `-f png` before `-o`.
pub proof fn lemma_storage_diagram_args(
    base_dir: Seq<char>,
    contract_name: Seq<char>,
    file_name: Seq<char>,
    kind: ResponseFieldMask,
    output_file: Seq<char>,
)
    ensures
        ({
            let a = storage_diagram_args(base_dir, contract_name, file_name, kind, output_file);
            &&& a[0] == "storage"@
            &&& a[1] == base_dir
            &&& a[2] == "-c"@
            &&& a[3] == contract_name
            &&& a[4] == "-cf"@
            &&& a[5] == file_name
            &&& kind == ResponseFieldMask::Svg ==> a.len() == 8
            &&& kind == ResponseFieldMask::Png ==> a.len() == 10 && a[6] == "-f"@ && a[7] == "png"@
            &&& a[a.len() - 2] == "-o"@
            &&& a[a.len() - 1] == output_file
        }),
{
    reveal_strlit("png");
}

/// A drawing goes to the file of its own kind.
pub proof fn lemma_output_for(svg_file: Seq<char>, png_file: Seq<char>)
    ensures
        output_for(ResponseFieldMask::Svg, svg_file, png_file) == svg_file,
        output_for(ResponseFieldMask::Png, svg_file, png_file) == png_file,
{
}

/// The wanted kinds are exactly the kinds the mask selects, each once.
pub proof fn lemma_wanted_kinds(mask: Set<ResponseFieldMask>, kind: ResponseFieldMask)
    ensures
        wanted_kinds(mask).contains(kind) <==> mask_selects(mask, kind),
        wanted_kinds(mask).no_duplicates(),
{
    let w = wanted_kinds(mask);
    if mask_selects(mask, kind) {
        match kind {
            ResponseFieldMask::Svg => assert(w[0] == kind),
            ResponseFieldMask::Png => assert(w[w.len() - 1] == kind),
        }
    }
}

/// The output file of a drawing of the given kind.
fn pick_output(kind: ResponseFieldMask, svg_file: &str, png_file: &str) -> (r: String)
    ensures
        r@ == output_for(kind, svg_file@, png_file@),
{
    match kind {
        ResponseFieldMask::Svg => String::from_str(svg_file),
        ResponseFieldMask::Png => String::from_str(png_file),
    }
}

/// The class diagram drawing of one kind.
fn class_drawing(base_dir: &str, kind: ResponseFieldMask, svg_file: &str, png_file: &str) -> (r:
    Drawing)
    ensures
        r.kind == kind,
        r.output_file@ == output_for(kind, svg_file@, png_file@),
        r.command@ == class_diagram_args(base_dir@, kind, r.output_file@),
{
    let output_file = pick_output(kind, svg_file, png_file);
    let format = kind.to_string();
    let command = Sol2Uml::new().arg("class").arg(base_dir).arg("--hideFilename").arg("-f").arg(
        format.as_str(),
    ).arg("-o").arg(output_file.as_str());
    assert(command@ =~= class_diagram_args(base_dir@, kind, output_file@));
    Drawing { kind, command, output_file }
}

/// The storage layout drawing of one kind.
fn storage_drawing(
    base_dir: &str,
    contract_name: &str,
    file_name: &str,
    kind: ResponseFieldMask,
    svg_file: &str,
    png_file: &str,
) -> (r: Drawing)
    ensures
        r.kind == kind,
        r.output_file@ == output_for(kind, svg_file@, png_file@),
        r.command@ == storage_diagram_args(
            base_dir@,
            contract_name@,
            file_name@,
            kind,
            r.output_file@,
        ),
{
    let output_file = pick_output(kind, svg_file, png_file);
    let located = Sol2Uml::new().arg("storage").arg(base_dir).arg("-c").arg(contract_name).arg(
        "-cf",
    ).arg(file_name);
    let formatted = match kind {
        ResponseFieldMask::Svg => located,
        ResponseFieldMask::Png => {
            let format = kind.to_string();
            located.arg("-f").arg(format.as_str())
        },
    };
    let command = formatted.arg("-o").arg(output_file.as_str());
    assert(command@ =~= storage_diagram_args(
        base_dir@,
        contract_name@,
        file_name@,
        kind,
        output_file@,
    ));
    Drawing { kind, command, output_file }
}

/// Plans the drawings of a class diagram request whose sources are in
/// `base_dir`: SVG into `svg_file` when the mask selects it, PNG into
/// `png_file` when it selects that.
pub fn visualize_contracts_drawings(
    request: &VisualizeContractsRequest,
    base_dir: &str,
    svg_file: &str,
    png_file: &str,
) -> (r: Vec<Drawing>)
    ensures
        class_drawings_planned(r@, request.output_mask@, base_dir@, svg_file@, png_file@),
{
    let mut r: Vec<Drawing> = Vec::new();
    if request.output_mask.contains(&ResponseFieldMask::Svg) {
        r.push(class_drawing(base_dir, ResponseFieldMask::Svg, svg_file, png_file));
    }
    if request.output_mask.contains(&ResponseFieldMask::Png) {
        r.push(class_drawing(base_dir, ResponseFieldMask::Png, svg_file, png_file));
    }
    assert(drawing_kinds(r@) =~= wanted_kinds(request.output_mask@));
    r
}

/// Plans the drawings of a storage layout request whose sources are in
/// `base_dir`, or refuses the request when its file path names no file: SVG
/// into `svg_file` when the mask selects it, PNG into `png_file` when it
/// selects that.
pub fn visualize_storage_drawings(
    request: &VisualizeStorageRequest,
    base_dir: &str,
    svg_file: &str,
    png_file: &str,
) -> (r: Result<Vec<Drawing>, VisualizeStorageError>)
    ensures
        match path_file_name(request.file_path@) {
            None => r matches Err(VisualizeStorageError::InvalidFileName),
            Some(name) => r matches Ok(drawings) && storage_drawings_planned(
                drawings@,
                request.output_mask@,
                base_dir@,
                request.contract_name@,
                name,
                svg_file@,
                png_file@,
            ),
        },
        ends_with_parent_dir(request.file_path@) ==> r matches Err(
            VisualizeStorageError::InvalidFileName,
        ),
        plain_file_name(request.file_path@) matches Some(n) ==> (r matches Ok(drawings)
                && storage_drawings_planned(
                drawings@,
                request.output_mask@,
                base_dir@,
                request.contract_name@,
                n,
                svg_file@,
                png_file@,
            )),
{
    match file_name(request.file_path.as_str()) {
        None => Err(VisualizeStorageError::InvalidFileName),
        Some(name) => {
            let mut r: Vec<Drawing> = Vec::new();
            if request.output_mask.contains(&ResponseFieldMask::Svg) {
                r.push(
                    storage_drawing(
                        base_dir,
                        request.contract_name.as_str(),
                        name.as_str(),
                        ResponseFieldMask::Svg,
                        svg_file,
                        png_file,
                    ),
                );
            }
            if request.output_mask.contains(&ResponseFieldMask::Png) {
                r.push(
                    storage_drawing(
                        base_dir,
                        request.contract_name.as_str(),
                        name.as_str(),
                        ResponseFieldMask::Png,
                        svg_file,
                        png_file,
                    ),
                );
            }
            assert(drawing_kinds(r@) =~= wanted_kinds(request.output_mask@));
            Ok(r)
        },
    }
}

/// A failed step becomes the request's error of the same nature: an
/// internal failure stays internal, a refusal of `sol2uml` is an execution
/// error, with the same text.
pub proof fn lemma_step_errors(m: String)
    ensures
        contracts_error_from(Error::Internal(m)) == VisualizeContractsError::Internal(m),
        contracts_error_from(Error::Sol2Uml(m)) == VisualizeContractsError::Execution(m),
        storage_error_from(Error::Internal(m)) == VisualizeStorageError::Internal(m),
        storage_error_from(Error::Sol2Uml(m)) == VisualizeStorageError::Execution(m),
{
}

/// The texts of the request errors.
pub proof fn lemma_request_error_messages(m: String)
    ensures
        contracts_error_message(VisualizeContractsError::Internal(m)) == "internal error: "@ + m@,
        contracts_error_message(VisualizeContractsError::Execution(m)) == "execution error: "@
            + m@,
        storage_error_message(VisualizeStorageError::Internal(m)) == "internal error: "@ + m@,
        storage_error_message(VisualizeStorageError::Execution(m)) == "execution error: "@ + m@,
        storage_error_message(VisualizeStorageError::InvalidFileName)
            == "file path should contain file name"@,
{
}

/// The drawings are made SVG first, then PNG.
pub proof fn lemma_wanted_order(mask: Set<ResponseFieldMask>)
    ensures
        mask_selects(mask, ResponseFieldMask::Svg) ==> wanted_kinds(mask)[0]
            == ResponseFieldMask::Svg,
        mask_selects(mask, ResponseFieldMask::Png) ==> wanted_kinds(mask)[wanted_kinds(mask).len()
            - 1] == ResponseFieldMask::Png,
        wanted_kinds(mask).len() <= 2,
{
}

} // verus!
