//! The aggregator: assembles parsed records into the full tree,
//! SaveFile -> CEC -> Title -> folders -> messages. The callers hand in
//! the raw bytes of each file; no parsing logic lives here beyond calling
//! the record parsers in a fixed order. Titles always come out in
//! box-list order, and an absent folder is tolerated: it yields an empty
//! message sequence and no folder metadata.

use vstd::prelude::*;
use crate::parse::{parse_box_info, parse_mbox_data, parse_mbox_info, parse_mbox_list,
    parse_message_file};
use crate::records::{
    BoxInfo, MBoxData, MBoxDataV, MBoxInfo, MBoxInfoV, MBoxList, MBoxListV, MessageFile,
    MessageFileV, ParseError, mbox_list_size_ok, spec_parse_box_info, spec_parse_mbox_data,
    spec_parse_mbox_info, spec_parse_mbox_list, spec_parse_message_file, BOX_INFO_SIZE,
    MBOX_INFO_SIZE, MESSAGE_FILE_SIZE, TITLE_ID_SIZE,
};
use vstd::string::StrSliceExecFns;

verus! {

/// A message folder: its metadata, if the folder was present on disk, and
/// its message headers in enumeration order.
#[derive(Debug, Clone, PartialEq, Eq)]
pub struct MsgBox {
    pub info: Option<BoxInfo>,
    pub messages: Vec<MessageFile>,
}

/// Model of `MsgBox`.
pub struct MsgBoxV {
    pub info: Option<BoxInfo>,
    pub messages: Seq<MessageFileV>,
}

impl View for MsgBox {
    type V = MsgBoxV;

    open spec fn view(&self) -> MsgBoxV {
        MsgBoxV { info: self.info, messages: self.messages.deep_view() }
    }
}

impl DeepView for MsgBox {
    type V = MsgBoxV;

    open spec fn deep_view(&self) -> MsgBoxV {
        self.view()
    }
}

/// A single registered application's mailbox state.
#[derive(Debug, Clone, PartialEq, Eq)]
pub struct Title {
    pub m_box_info: MBoxInfo,
    pub m_box_data: MBoxData,
    pub inbox: MsgBox,
    pub outbox: MsgBox,
}

/// Model of `Title`.
pub struct TitleV {
    pub m_box_info: MBoxInfoV,
    pub m_box_data: MBoxDataV,
    pub inbox: MsgBoxV,
    pub outbox: MsgBoxV,
}

impl View for Title {
    type V = TitleV;

    open spec fn view(&self) -> TitleV {
        TitleV {
            m_box_info: self.m_box_info@,
            m_box_data: self.m_box_data@,
            inbox: self.inbox@,
            outbox: self.outbox@,
        }
    }
}

impl DeepView for Title {
    type V = TitleV;

    open spec fn deep_view(&self) -> TitleV {
        self.view()
    }
}

/// The console's overall messaging state: the box index and one title per
/// index entry, in index order.
#[derive(Debug, Clone, PartialEq, Eq)]
pub struct CEC {
    pub m_box_list: MBoxList,
    pub titles: Vec<Title>,
}

/// Model of `CEC`.
pub struct CECV {
    pub m_box_list: MBoxListV,
    pub titles: Seq<TitleV>,
}

impl View for CEC {
    type V = CECV;

    open spec fn view(&self) -> CECV {
        CECV { m_box_list: self.m_box_list@, titles: self.titles.deep_view() }
    }
}

/// The root of the decoded tree.
#[derive(Debug, Clone, PartialEq, Eq)]
pub struct SaveFile {
    pub cec: CEC,
}

/// Model of `SaveFile`.
pub struct SaveFileV {
    pub cec: CECV,
}

impl View for SaveFile {
    type V = SaveFileV;

    open spec fn view(&self) -> SaveFileV {
        SaveFileV { cec: self.cec@ }
    }
}

/// The raw bytes found in one present folder: its metadata file and its
/// message files, in enumeration order.
#[derive(Debug, Clone, PartialEq, Eq)]
pub struct FolderInput {
    pub box_info_data: Vec<u8>,
    pub message_datas: Vec<Vec<u8>>,
}

/// Model of `FolderInput`.
pub struct FolderInputV {
    pub box_info_data: Seq<u8>,
    pub message_datas: Seq<Seq<u8>>,
}

impl View for FolderInput {
    type V = FolderInputV;

    open spec fn view(&self) -> FolderInputV {
        FolderInputV {
            box_info_data: self.box_info_data@,
            message_datas: self.message_datas.deep_view(),
        }
    }
}

impl DeepView for FolderInput {
    type V = FolderInputV;

    open spec fn deep_view(&self) -> FolderInputV {
        self.view()
    }
}

/// The raw bytes found for one title's box directory. An absent inbox or
/// outbox folder is `None`.
#[derive(Debug, Clone, PartialEq, Eq)]
pub struct TitleInput {
    pub m_box_info_data: Vec<u8>,
    pub icon_data: Vec<u8>,
    pub title_data: Vec<u8>,
    pub title_id_data: Vec<u8>,
    pub inbox: Option<FolderInput>,
    pub outbox: Option<FolderInput>,
}

/// Model of `TitleInput`.
pub struct TitleInputV {
    pub m_box_info_data: Seq<u8>,
    pub icon_data: Seq<u8>,
    pub title_data: Seq<u8>,
    pub title_id_data: Seq<u8>,
    pub inbox: Option<FolderInputV>,
    pub outbox: Option<FolderInputV>,
}

impl View for TitleInput {
    type V = TitleInputV;

    open spec fn view(&self) -> TitleInputV {
        TitleInputV {
            m_box_info_data: self.m_box_info_data@,
            icon_data: self.icon_data@,
            title_data: self.title_data@,
            title_id_data: self.title_id_data@,
            inbox: self.inbox.deep_view(),
            outbox: self.outbox.deep_view(),
        }
    }
}

impl DeepView for TitleInput {
    type V = TitleInputV;

    open spec fn deep_view(&self) -> TitleInputV {
        self.view()
    }
}

/// Whether a directory entry names a message record: by the format's
/// convention, message files are exactly those whose name begins with an
/// underscore; every other name is metadata and skipped.
pub fn is_message_file_name(name: &str) -> (r: bool)
    ensures
        r == (name@.len() > 0 && name@[0] == '_'),
{
    if name.unicode_len() == 0 {
        false
    } else {
        name.get_char(0) == '_'
    }
}

/// What a folder assembles to: an absent folder is an empty `MsgBox` with
/// no metadata; a present one needs its metadata record and every message
/// header to decode.
pub open spec fn spec_assemble_box(f: Option<FolderInputV>) -> Result<MsgBoxV, ParseError> {
    match f {
        Option::None => Ok(MsgBoxV { info: Option::None, messages: Seq::empty() }),
        Option::Some(fv) => if fv.box_info_data.len() < BOX_INFO_SIZE {
            Err(ParseError::BufferTooShort)
        } else if exists|i: int|
            0 <= i < fv.message_datas.len() && fv.message_datas[i].len() < MESSAGE_FILE_SIZE {
            Err(ParseError::BufferTooShort)
        } else {
            Ok(
                MsgBoxV {
                    info: Option::Some(spec_parse_box_info(fv.box_info_data)),
                    messages: fv.message_datas.map_values(|d: Seq<u8>| spec_parse_message_file(d)),
                },
            )
        },
    }
}

/// Assembles one folder from its raw bytes, or an empty folder where none
/// was present.
#[verifier::loop_isolation(false)]
pub fn assemble_box(folder: &Option<FolderInput>) -> (r: Result<MsgBox, ParseError>)
    ensures
        r is Ok ==> Ok::<MsgBoxV, ParseError>(r->Ok_0@) == spec_assemble_box(folder.deep_view()),
        r is Err ==> Err::<MsgBoxV, ParseError>(r->Err_0) == spec_assemble_box(
            folder.deep_view(),
        ),
        folder is None ==> (r matches Ok(b) && b.info is None && b.messages@.len() == 0),
{
    match folder {
        Option::None => {
            let r = MsgBox { info: None, messages: Vec::new() };
            proof {
                assert(r@.messages =~= Seq::<MessageFileV>::empty());
            }
            Ok(r)
        },
        Option::Some(f) => {
            let info = match parse_box_info(f.box_info_data.as_slice()) {
                Ok(v) => v,
                Err(e) => {
                    return Err(e);
                },
            };
            let mut messages: Vec<MessageFile> = Vec::new();
            let mut i: usize = 0;
            let n = f.message_datas.len();
            while i < n
                invariant
                    n == f.message_datas@.len(),
                    i <= n,
                    messages@.len() == i,
                    forall|j: int|
                        0 <= j < i ==> (#[trigger] f.message_datas@[j]@).len()
                            >= MESSAGE_FILE_SIZE,
                    forall|j: int|
                        0 <= j < i ==> #[trigger] messages@[j]@ == spec_parse_message_file(
                            f.message_datas@[j]@,
                        ),
                decreases n - i,
            {
                let m = match parse_message_file(f.message_datas[i].as_slice()) {
                    Ok(v) => v,
                    Err(e) => {
                        proof {
                            let fv = f.deep_view();
                            assert(0 <= i < fv.message_datas.len() && fv.message_datas[
                                i as int
                            ].len() < MESSAGE_FILE_SIZE);
                        }
                        return Err(e);
                    },
                };
                let ghost pre = messages@;
                messages.push(m);
                i = i + 1;
                proof {
                    assert forall|j: int|
                        0 <= j < i implies #[trigger] messages@[j]@ == spec_parse_message_file(
                        f.message_datas@[j]@,
                    ) by {
                        if j < i - 1 {
                            assert(messages@[j] == pre[j]);
                            assert(pre[j]@ == spec_parse_message_file(f.message_datas@[j]@));
                        } else {
                            assert(messages@[j] == m);
                        }
                    };
                }
            }
            let r = MsgBox { info: Some(info), messages };
            proof {
                let fv = f.deep_view();
                let mapped = fv.message_datas.map_values(
                    |d: Seq<u8>| spec_parse_message_file(d),
                );
                assert forall|j: int| 0 <= j < r@.messages.len() implies r@.messages[j]
                    == mapped[j] by {
                    assert(fv.message_datas[j] == f.message_datas@[j]@);
                    assert(r@.messages[j] == spec_parse_message_file(f.message_datas@[j]@));
                };
                assert(r@.messages =~= mapped);
                assert forall|k: int|
                    0 <= k < fv.message_datas.len() implies fv.message_datas[k].len()
                    >= MESSAGE_FILE_SIZE by {
                    assert(fv.message_datas[k] == f.message_datas@[k]@);
                    assert(messages@[k]@ == spec_parse_message_file(f.message_datas@[k]@));
                };
            }
            Ok(r)
        },
    }
}

/// What one title assembles to. The pieces are read in a fixed order:
/// mailbox metadata, display data, inbox, outbox; the first refusal wins.
pub open spec fn spec_assemble_title(iv: TitleInputV) -> Result<TitleV, ParseError> {
    if iv.m_box_info_data.len() < MBOX_INFO_SIZE {
        Err(ParseError::BufferTooShort)
    } else if iv.title_id_data.len() < TITLE_ID_SIZE {
        Err(ParseError::BufferTooShort)
    } else if iv.title_data.len() % 2 != 0 {
        Err(ParseError::OddTitleLength)
    } else if spec_assemble_box(iv.inbox) is Err {
        Err(spec_assemble_box(iv.inbox)->Err_0)
    } else if spec_assemble_box(iv.outbox) is Err {
        Err(spec_assemble_box(iv.outbox)->Err_0)
    } else {
        Ok(
            TitleV {
                m_box_info: spec_parse_mbox_info(iv.m_box_info_data),
                m_box_data: spec_parse_mbox_data(iv.icon_data, iv.title_data, iv.title_id_data),
                inbox: spec_assemble_box(iv.inbox)->Ok_0,
                outbox: spec_assemble_box(iv.outbox)->Ok_0,
            },
        )
    }
}

/// Assembles one title from the raw bytes of its box directory.
pub fn assemble_title(input: &TitleInput) -> (r: Result<Title, ParseError>)
    ensures
        r is Ok ==> Ok::<TitleV, ParseError>(r->Ok_0@) == spec_assemble_title(input@),
        r is Err ==> Err::<TitleV, ParseError>(r->Err_0) == spec_assemble_title(input@),
{
    let m_box_info = match parse_mbox_info(input.m_box_info_data.as_slice()) {
        Ok(v) => v,
        Err(e) => {
            return Err(e);
        },
    };
    let m_box_data = match parse_mbox_data(
        input.icon_data.as_slice(),
        input.title_data.as_slice(),
        input.title_id_data.as_slice(),
    ) {
        Ok(v) => v,
        Err(e) => {
            return Err(e);
        },
    };
    let inbox = match assemble_box(&input.inbox) {
        Ok(v) => v,
        Err(e) => {
            return Err(e);
        },
    };
    let outbox = match assemble_box(&input.outbox) {
        Ok(v) => v,
        Err(e) => {
            return Err(e);
        },
    };
    Ok(Title { m_box_info, m_box_data, inbox, outbox })
}

/// What a run of title inputs assembles to: every title in input order,
/// or the first refusal among them.
pub open spec fn spec_assemble_titles(inputs: Seq<TitleInputV>) -> Result<
    Seq<TitleV>,
    ParseError,
>
    decreases inputs.len(),
{
    if inputs.len() == 0 {
        Ok(Seq::empty())
    } else {
        match spec_assemble_titles(inputs.drop_last()) {
            Err(e) => Err(e),
            Ok(rest) => match spec_assemble_title(inputs.last()) {
                Err(e) => Err(e),
                Ok(t) => Ok(rest.push(t)),
            },
        }
    }
}

/// When every title assembles, the output has one title per input, in the
/// same order, and each is its own input's decode.
pub proof fn lemma_assemble_titles_ok(inputs: Seq<TitleInputV>)
    requires
        spec_assemble_titles(inputs) is Ok,
    ensures
        spec_assemble_titles(inputs)->Ok_0.len() == inputs.len(),
        forall|i: int|
            0 <= i < inputs.len() ==> #[trigger] spec_assemble_title(inputs[i]) is Ok
                && spec_assemble_titles(inputs)->Ok_0[i] == spec_assemble_title(inputs[i])->Ok_0,
    decreases inputs.len(),
{
    if inputs.len() > 0 {
        lemma_assemble_titles_ok(inputs.drop_last());
        assert forall|i: int|
            0 <= i < inputs.len() implies #[trigger] spec_assemble_title(inputs[i]) is Ok
            && spec_assemble_titles(inputs)->Ok_0[i] == spec_assemble_title(inputs[i])->Ok_0 by {
            if i < inputs.len() - 1 {
                assert(inputs.drop_last()[i] == inputs[i]);
                assert(spec_assemble_title(inputs.drop_last()[i]) is Ok);
            } else {
                assert(inputs.last() == inputs[i]);
            }
        };
    }
}

/// A refusal in a prefix of the inputs settles the whole run: everything
/// after the refusing title leaves the result unchanged.
pub proof fn lemma_assemble_titles_prefix_err(inputs: Seq<TitleInputV>, k: int, m: int)
    requires
        0 <= k <= m <= inputs.len(),
        spec_assemble_titles(inputs.subrange(0, k)) is Err,
    ensures
        spec_assemble_titles(inputs.subrange(0, m)) == spec_assemble_titles(
            inputs.subrange(0, k),
        ),
    decreases m,
{
    if m > k {
        assert(inputs.subrange(0, m).drop_last() =~= inputs.subrange(0, m - 1));
        lemma_assemble_titles_prefix_err(inputs, k, m - 1);
    }
}

/// What the whole container assembles to: the box index decodes, one
/// title input is supplied per indexed box, and every title assembles, in
/// index order.
pub open spec fn spec_assemble_save_file(list_data: Seq<u8>, inputs: Seq<TitleInputV>) -> Result<
    SaveFileV,
    ParseError,
> {
    if !mbox_list_size_ok(list_data) {
        Err(ParseError::BufferTooShort)
    } else if inputs.len() != spec_parse_mbox_list(list_data).number_of_boxes {
        Err(ParseError::BoxCountMismatch)
    } else {
        match spec_assemble_titles(inputs) {
            Err(e) => Err(e),
            Ok(titles) => Ok(
                SaveFileV {
                    cec: CECV { m_box_list: spec_parse_mbox_list(list_data), titles },
                },
            ),
        }
    }
}

/// Wraps an already-parsed box index and its titles into the root record.
pub fn create_save_file(m_box_list: MBoxList, titles: Vec<Title>) -> (r: SaveFile)
    ensures
        r.cec.m_box_list == m_box_list,
        r.cec.titles == titles,
{
    SaveFile { cec: CEC { m_box_list, titles } }
}

/// Drives the whole decode: parses the box index, then assembles one
/// title per indexed box, in index order, from the raw bytes the caller
/// gathered for it. The first refusal is the result; titles come out in
/// box-list order whatever order the caller met on disk.
#[verifier::loop_isolation(false)]
pub fn assemble_save_file(box_list_data: &[u8], title_inputs: &Vec<TitleInput>) -> (r: Result<
    SaveFile,
    ParseError,
>)
    ensures
        r is Ok ==> Ok::<SaveFileV, ParseError>(r->Ok_0@) == spec_assemble_save_file(
            box_list_data@,
            title_inputs.deep_view(),
        ),
        r is Err ==> Err::<SaveFileV, ParseError>(r->Err_0) == spec_assemble_save_file(
            box_list_data@,
            title_inputs.deep_view(),
        ),
{
    let ghost inputs_v = title_inputs.deep_view();
    let m_box_list = match parse_mbox_list(box_list_data) {
        Ok(v) => v,
        Err(e) => {
            return Err(e);
        },
    };
    if title_inputs.len() as u64 != m_box_list.number_of_boxes as u64 {
        return Err(ParseError::BoxCountMismatch);
    }
    let n = title_inputs.len();
    let mut titles: Vec<Title> = Vec::new();
    let mut i: usize = 0;
    proof {
        assert(inputs_v.subrange(0, 0) =~= Seq::<TitleInputV>::empty());
        assert(titles.deep_view() =~= Seq::<TitleV>::empty());
    }
    while i < n
        invariant
            n == title_inputs@.len(),
            inputs_v == title_inputs.deep_view(),
            i <= n,
            titles@.len() == i,
            spec_assemble_titles(inputs_v.subrange(0, i as int)) == Ok::<Seq<TitleV>, ParseError>(
                titles.deep_view(),
            ),
        decreases n - i,
    {
        proof {
            assert(inputs_v.subrange(0, i + 1).drop_last() =~= inputs_v.subrange(0, i as int));
            assert(inputs_v.subrange(0, i + 1).last() == title_inputs@[i as int]@);
        }
        let t = match assemble_title(&title_inputs[i]) {
            Ok(v) => v,
            Err(e) => {
                proof {
                    assert(inputs_v[i as int] == title_inputs@[i as int]@);
                    assert(spec_assemble_titles(inputs_v.subrange(0, i + 1))
                        == Err::<Seq<TitleV>, ParseError>(e));
                    lemma_assemble_titles_prefix_err(inputs_v, i + 1, inputs_v.len() as int);
                    assert(inputs_v.subrange(0, inputs_v.len() as int) =~= inputs_v);
                }
                return Err(e);
            },
        };
        let ghost old_titles = titles.deep_view();
        titles.push(t);
        proof {
            assert(titles.deep_view() =~= old_titles.push(t@));
        }
        i = i + 1;
    }
    proof {
        assert(inputs_v.subrange(0, n as int) =~= inputs_v);
    }
    let r = create_save_file(m_box_list, titles);
    Ok(r)
}

/// The model of one title's assembly result.
pub open spec fn title_result_view(r: Result<Title, ParseError>) -> Result<TitleV, ParseError> {
    match r {
        Ok(t) => Ok(t@),
        Err(e) => Err(e),
    }
}

/// Assembles every title, isolating failures: where `assemble_save_file`
/// stops at the first refusal, this returns one result per title input,
/// in order, so one broken box directory does not hide the others.
#[verifier::loop_isolation(false)]
pub fn assemble_titles_isolated(title_inputs: &Vec<TitleInput>) -> (r: Vec<
    Result<Title, ParseError>,
>)
    ensures
        r@.len() == title_inputs@.len(),
        forall|i: int|
            0 <= i < r@.len() ==> #[trigger] title_result_view(r@[i]) == spec_assemble_title(
                title_inputs@[i]@,
            ),
{
    let mut results: Vec<Result<Title, ParseError>> = Vec::new();
    let mut i: usize = 0;
    let n = title_inputs.len();
    while i < n
        invariant
            i <= n,
            results@.len() == i,
            forall|j: int|
                0 <= j < i ==> #[trigger] title_result_view(results@[j]) == spec_assemble_title(
                    title_inputs@[j]@,
                ),
        decreases n - i,
    {
        results.push(assemble_title(&title_inputs[i]));
        i = i + 1;
    }
    results
}

/// Decoding is deterministic: the decode of a container is a function of
/// the input bytes alone, so two decodes of the same buffers yield
/// structurally equal trees.
pub proof fn lemma_decode_deterministic(
    list_data: Seq<u8>,
    inputs: Seq<TitleInputV>,
    r1: Result<SaveFileV, ParseError>,
    r2: Result<SaveFileV, ParseError>,
)
    requires
        r1 == spec_assemble_save_file(list_data, inputs),
        r2 == spec_assemble_save_file(list_data, inputs),
    ensures
        r1 == r2,
{
}

} // verus!
