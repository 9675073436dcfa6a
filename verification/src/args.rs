//! Argument lists for the two operations the runner supports.
//!
//! Both operations invoke an external interpreter on a script; the script
//! paths and flag names are part of the operations' contracts with those
//! scripts. The optional flag of the OCR run is included only when set,
//! never replaced by a placeholder token.

use vstd::prelude::*;

verus! {

/// The views of an argument list's entries, in order.
pub open spec fn arg_views(args: Seq<String>) -> Seq<Seq<char>> {
    args.map_values(|a: String| a@)
}

/// The argument list of an OCR run: the script, the source document, the
/// output folder, and — only when set — the flag that suppresses tabular
/// output.
pub open spec fn ocr_arg_model(pdf_path: Seq<char>, output_folder: Seq<char>, no_csv: bool) -> Seq<
    Seq<char>,
> {
    let base = seq!["src/ocr_poc.py"@, pdf_path, "--output_folder"@, output_folder];
    if no_csv {
        base.push("--no-csv"@)
    } else {
        base
    }
}

/// The argument list of an accuracy review: the script, the OCR results, the
/// ground truth, and the overlap threshold, already rendered as text.
pub open spec fn accuracy_arg_model(
    ocr_csv_path: Seq<char>,
    ground_truth_json_path: Seq<char>,
    iou_threshold: Seq<char>,
) -> Seq<Seq<char>> {
    seq![
        "scripts/accuracy_reviewer.py"@,
        "--ocr_csv"@,
        ocr_csv_path,
        "--ground_truth_json"@,
        ground_truth_json_path,
        "--iou_threshold"@,
        iou_threshold,
    ]
}

/// Build the argument list of an OCR run; the optional flag is appended only
/// when set and otherwise omitted outright.
pub fn ocr_args(pdf_path: String, output_folder: String, no_csv: bool) -> (args: Vec<String>)
    ensures
        arg_views(args@) == ocr_arg_model(pdf_path@, output_folder@, no_csv),
{
    let ghost pdf_view = pdf_path@;
    let ghost folder_view = output_folder@;
    let mut args: Vec<String> = Vec::new();
    args.push("src/ocr_poc.py".to_owned());
    args.push(pdf_path);
    args.push("--output_folder".to_owned());
    args.push(output_folder);
    if no_csv {
        args.push("--no-csv".to_owned());
    }
    proof {
        assert(arg_views(args@) =~~= ocr_arg_model(pdf_view, folder_view, no_csv));
    }
    args
}

/// Build the argument list of an accuracy review; the threshold arrives
/// already rendered as text and is passed through unchanged.
pub fn accuracy_args(
    ocr_csv_path: String,
    ground_truth_json_path: String,
    iou_threshold: String,
) -> (args: Vec<String>)
    ensures
        arg_views(args@) == accuracy_arg_model(
            ocr_csv_path@,
            ground_truth_json_path@,
            iou_threshold@,
        ),
{
    let ghost csv_view = ocr_csv_path@;
    let ghost truth_view = ground_truth_json_path@;
    let ghost threshold_view = iou_threshold@;
    let mut args: Vec<String> = Vec::new();
    args.push("scripts/accuracy_reviewer.py".to_owned());
    args.push("--ocr_csv".to_owned());
    args.push(ocr_csv_path);
    args.push("--ground_truth_json".to_owned());
    args.push(ground_truth_json_path);
    args.push("--iou_threshold".to_owned());
    args.push(iou_threshold);
    proof {
        assert(arg_views(args@) =~~= accuracy_arg_model(csv_view, truth_view, threshold_view));
    }
    args
}

} // verus!
