//! Tasks of the main menu: the parameters they ask for and the text of
//! their reports.

use crate::models::{params_view, with_param, TaskConfig};
use crate::scan::{trim, trimmed};
use crate::text::{decimal, digits};
use vstd::prelude::*;
use vstd::string::{StrSliceExecFns, StringExecFns};

verus! {

/// One question put to the user before a task runs.
#[derive(Debug, Clone, Copy)]
pub struct ParamPrompt {
    /// Name under which the answer is kept.
    pub key: &'static str,
    /// The question.
    pub prompt: &'static str,
    /// The answer where the user gives none; may be empty.
    pub default: &'static str,
}

/// Key, question and default of each prompt.
pub open spec fn prompts_view(prompts: Seq<ParamPrompt>) -> Seq<(Seq<char>, Seq<char>, Seq<char>)> {
    prompts.map_values(|p: ParamPrompt| (p.key@, p.prompt@, p.default@))
}

/// The questions of the task with id `id`: the disk test asks for a size
/// and a path, the others for nothing.
pub open spec fn prompts_of(id: usize) -> Seq<(Seq<char>, Seq<char>, Seq<char>)> {
    if id == 1 {
        seq![
            ("test_size"@, "测试文件大小 (MB)"@, "1024"@),
            ("test_path"@, "测试路径"@, "/tmp"@),
        ]
    } else {
        Seq::empty()
    }
}

/// Lists the questions of the task with id `id`.
pub fn parameter_prompts(id: usize) -> (r: Vec<ParamPrompt>)
    ensures
        prompts_view(r@) == prompts_of(id),
{
    let mut out: Vec<ParamPrompt> = Vec::new();
    if id == 1 {
        out.push(ParamPrompt { key: "test_size", prompt: "测试文件大小 (MB)", default: "1024" });
        out.push(ParamPrompt { key: "test_path", prompt: "测试路径", default: "/tmp" });
    }
    assert(prompts_view(out@) =~= prompts_of(id));
    out
}

/// The line that puts a question, with the default in brackets where
/// there is one.
pub open spec fn prompt_text(prompt: Seq<char>, default: Seq<char>) -> Seq<char> {
    if default.len() == 0 {
        "  - "@ + prompt + ": "@
    } else {
        "  - "@ + prompt + " [默认: "@ + default + "]: "@
    }
}

/// Writes the line that puts a question.
pub fn prompt_line(prompt: &str, default: &str) -> (r: String)
    ensures
        r@ == prompt_text(prompt@, default@),
{
    let mut s = String::from_str("  - ");
    s.append(prompt);
    if default.unicode_len() == 0 {
        s.append(": ");
    } else {
        s.append(" [默认: ");
        s.append(default);
        s.append("]: ");
    }
    s
}

/// What an answer counts as: the input without the spaces at its ends, or
/// the default where nothing is left.
pub open spec fn resolved(input: Seq<char>, default: Seq<char>) -> Seq<char> {
    if trimmed(input).len() == 0 {
        default
    } else {
        trimmed(input)
    }
}

/// Settles what an answer counts as.
pub fn resolve_input(input: &str, default: &str) -> (r: String)
    ensures
        r@ == resolved(input@, default@),
{
    let value: &str = trim(input);
    if value.unicode_len() == 0 {
        String::from_str(default)
    } else {
        String::from_str(value)
    }
}

/// The `i`-th answer, or nothing where the user gave fewer.
pub open spec fn answer_at(answers: Seq<String>, i: int) -> Seq<char> {
    if 0 <= i < answers.len() {
        answers[i]@
    } else {
        Seq::empty()
    }
}

/// The parameters after the first `count` questions were answered.
pub open spec fn collected(
    params: Seq<(Seq<char>, Seq<char>)>,
    prompts: Seq<(Seq<char>, Seq<char>, Seq<char>)>,
    answers: Seq<String>,
    count: nat,
) -> Seq<(Seq<char>, Seq<char>)>
    decreases count,
{
    if count == 0 || count > prompts.len() {
        params
    } else {
        with_param(
            collected(params, prompts, answers, (count - 1) as nat),
            prompts[count - 1].0,
            resolved(answer_at(answers, count - 1), prompts[count - 1].2),
        )
    }
}

/// Enters the answers to the questions of the task, in the order of the
/// questions, into its parameters. A missing answer counts as an empty
/// one.
pub fn collect_parameters(task_config: &mut TaskConfig, answers: &Vec<String>)
    ensures
        final(task_config).item == old(task_config).item,
        params_view(final(task_config).params@) == collected(
            params_view(old(task_config).params@),
            prompts_of(old(task_config).item.id),
            answers@,
            prompts_of(old(task_config).item.id).len(),
        ),
{
    let prompts = parameter_prompts(task_config.item.id);
    let ghost start = params_view(task_config.params@);
    let ghost asked = prompts_of(task_config.item.id);
    let mut i: usize = 0;
    while i < prompts.len()
        invariant
            i <= prompts.len(),
            task_config.item == old(task_config).item,
            prompts_view(prompts@) == asked,
            prompts@.len() == asked.len(),
            params_view(task_config.params@) == collected(start, asked, answers@, i as nat),
        decreases prompts.len() - i,
    {
        let p: ParamPrompt = prompts[i];
        proof {
            assert(prompts_view(prompts@)[i as int] == (p.key@, p.prompt@, p.default@));
        }
        let value = if i < answers.len() {
            resolve_input(answers[i].as_str(), p.default)
        } else {
            proof {
                reveal_strlit("");
                assert(""@ =~= Seq::<char>::empty());
            }
            resolve_input("", p.default)
        };
        task_config.insert(String::from_str(p.key), value);
        i = i + 1;
    }
}

/// How a task that shows a screen of its own ended.
#[derive(Debug, Clone)]
pub enum ScreenResult {
    /// The task has no screen.
    NoScreen,
    /// The screen was left in the ordinary way.
    Left,
    /// The screen could not be started; this is why.
    Failed(String),
}

/// Each parameter on a line of its own: `  - key: value`.
pub open spec fn param_lines(params: Seq<(Seq<char>, Seq<char>)>) -> Seq<char>
    decreases params.len(),
{
    if params.len() == 0 {
        Seq::empty()
    } else {
        param_lines(params.drop_last()) + "  - "@ + params.last().0 + ": "@ + params.last().1
            + "\n"@
    }
}

/// The report of a task. The system monitor (id 0) says how its screen
/// ended; the disk test (id 1) names its size, which must have been
/// collected; every other task names itself and its parameters.
pub open spec fn report_text(
    id: usize,
    name: Seq<char>,
    params: Seq<(Seq<char>, Seq<char>)>,
    size: Seq<char>,
    screen: ScreenResult,
) -> Seq<char> {
    if id == 0 {
        match screen {
            ScreenResult::Failed(why) => "启动系统监控失败: "@ + why@ + "\n"@,
            _ => "已退出系统信息监控。\n"@,
        }
    } else if id == 1 {
        "开始硬盘测试 (大小: "@ + size + " MB)...\n"@ + "测试完成。顺序写入速度: 500 MB/s\n"@
    } else {
        "正在模拟执行任务: "@ + name + "\n"@ + (if params.len() > 0 {
            "参数:\n"@ + param_lines(params)
        } else {
            Seq::empty()
        }) + "任务模拟执行完成。\n"@
    }
}

/// Writes the report of a task. `None` for a disk test whose size was not
/// collected.
pub fn task_report(config: &TaskConfig, screen: &ScreenResult) -> (r: Option<String>)
    ensures
        r is None <==> config.item.id == 1 && config.get_spec("test_size"@) is None,
        r is Some ==> r->0@ == report_text(
            config.item.id,
            config.item.name@,
            params_view(config.params@),
            config.get_spec("test_size"@).unwrap_or(Seq::empty()),
            *screen,
        ),
{
    let mut out = String::new();
    if config.item.id == 0 {
        match screen {
            ScreenResult::Failed(why) => {
                out.append("启动系统监控失败: ");
                out.append(why.as_str());
                out.append("\n");
            },
            _ => {
                out.append("已退出系统信息监控。\n");
            },
        }
    } else if config.item.id == 1 {
        match config.get("test_size") {
            Some(size) => {
                out.append("开始硬盘测试 (大小: ");
                out.append(size.as_str());
                out.append(" MB)...\n");
                out.append("测试完成。顺序写入速度: 500 MB/s\n");
            },
            None => {
                return None;
            },
        }
    } else {
        out.append("正在模拟执行任务: ");
        out.append(config.item.name);
        out.append("\n");
        if config.params.len() > 0 {
            out.append("参数:\n");
            let ghost shown = params_view(config.params@);
            let ghost base = out@;
            let mut i: usize = 0;
            proof {
                assert(shown.take(0) =~= Seq::empty());
                assert(base + param_lines(shown.take(0)) =~= base);
            }
            while i < config.params.len()
                invariant
                    i <= config.params.len(),
                    shown == params_view(config.params@),
                    out@ == base + param_lines(shown.take(i as int)),
                decreases config.params.len() - i,
            {
                out.append("  - ");
                out.append(config.params[i].key.as_str());
                out.append(": ");
                out.append(config.params[i].value.as_str());
                out.append("\n");
                proof {
                    let upto = shown.take(i + 1);
                    assert(upto.drop_last() =~= shown.take(i as int));
                    assert(upto.last() == shown[i as int]);
                    assert(out@ =~= base + param_lines(upto));
                }
                i = i + 1;
            }
            proof {
                assert(shown.take(config.params.len() as int) =~= shown);
            }
        }
        out.append("任务模拟执行完成。\n");
    }
    assert(out@ =~= report_text(
        config.item.id,
        config.item.name@,
        params_view(config.params@),
        config.get_spec("test_size"@).unwrap_or(Seq::empty()),
        *screen,
    ));
    Some(out)
}

/// Seconds a task pretends to work: the disk test two, the monitor none,
/// every other task one.
pub fn task_pause_secs(id: usize) -> (r: u64)
    ensures
        r == (if id == 0 {
            0int
        } else if id == 1 {
            2int
        } else {
            1int
        }),
{
    if id == 0 {
        0
    } else if id == 1 {
        2
    } else {
        1
    }
}

/// Whether the report of a task is printed after it ran: the monitor has a
/// screen of its own and prints nothing.
pub fn prints_report(id: usize) -> (r: bool)
    ensures
        r == (id != 0),
{
    id != 0
}

/// The head of the report on a batch of `count` tasks run at `time`.
pub open spec fn batch_header_text(time: Seq<char>, count: nat) -> Seq<char> {
    "=== 批量任务执行报告 ===\n执行时间: "@ + time + "\n共 "@ + digits(count) + " 个任务\n\n"@
}

/// Writes the head of a batch report.
pub fn batch_header(time: &str, count: usize) -> (r: String)
    ensures
        r@ == batch_header_text(time@, count as nat),
{
    let mut s = String::from_str("=== 批量任务执行报告 ===\n执行时间: ");
    s.append(time);
    s.append("\n共 ");
    s.append(decimal(count as u128).as_str());
    s.append(" 个任务\n\n");
    s
}

/// The part of a batch report about its `number`-th task, counted from
/// one.
pub open spec fn batch_section_text(number: nat, name: Seq<char>, output: Seq<char>) -> Seq<char> {
    "--- 任务 "@ + digits(number) + ": "@ + name + " ---\n"@ + output + "\n\n"@
}

/// Writes the part of a batch report about one task.
pub fn batch_section(number: usize, name: &str, output: &str) -> (r: String)
    ensures
        r@ == batch_section_text(number as nat, name@, output@),
{
    let mut s = String::from_str("--- 任务 ");
    s.append(decimal(number as u128).as_str());
    s.append(": ");
    s.append(name);
    s.append(" ---\n");
    s.append(output);
    s.append("\n\n");
    s
}

/// Name of the file a report is saved in: the name of the task, the time
/// stamp, and `.log`.
pub open spec fn log_name_text(task: Seq<char>, stamp: Seq<char>) -> Seq<char> {
    task + "_"@ + stamp + ".log"@
}

/// Names the file a report is saved in.
pub fn log_file_name(task: &str, stamp: &str) -> (r: String)
    ensures
        r@ == log_name_text(task@, stamp@),
{
    let mut s = String::from_str(task);
    s.append("_");
    s.append(stamp);
    s.append(".log");
    s
}

/// Name under which the report of a single task is saved.
pub fn single_task_name(id: usize) -> (r: String)
    ensures
        r@ == "single_"@ + digits(id as nat),
{
    let mut s = String::from_str("single_");
    s.append(decimal(id as u128).as_str());
    s
}

} // verus!
