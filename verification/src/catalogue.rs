//! The catalogue of built-in tools: each tool's name and the instructions the
//! planner reads for it.
use vstd::prelude::*;

verus! {
pub const RESEARCHER_PROMPT: &'static str = "You are the Researcher Tool. Your job is to analyze information, find facts, and summarize data objectively. You HAVE LIVE INTERNET ACCESS and will search the web to verify current facts.";
pub const TAKE_SNAPSHOT_PROMPT: &'static str = "Captures a live physical dashboard screenshot of your internal Neo4j brain, Turing Grid, and Timeline memory natively using headless chrome. \
            Usage: action:[take_snapshot]. Run this IMMEDIATELY whenever the user asks to 'see your brain', 'show me your graph', 'screenshot your dashboard', or anything similar.";
pub const SEND_EMAIL_PROMPT: &'static str = "Sends a physical email outwards using your native SMTP nervous system backbone. \
            Usage: 'action:[send_email] to:[address@example.com] subject:[My Title] body:[Your message...]'. \
            You can use this to email the user or anyone else natively without relying on web interfaces.";
pub const SET_ALARM_PROMPT: &'static str = "Manages alarms and calendar events. \
            ALARMS: action:[set_alarm] time:[+5m] message:[My Message] | action:[list_alarms] \
            EVENTS: action:[create_event] title:[Team Meeting] start:[+1h] end:[+2h] location:[Office] details:[Discuss roadmap] recurring:[weekly] | action:[list_events] | action:[delete_event] id:[abc123] \
            Time supports +1m, +2h, +3d or full ISO8601.";
pub const MANAGE_CONTACTS_PROMPT: &'static str = "Manages the personal address book / contacts list. \
            ADD: action:[add] name:[John Doe] email:[john@example.com] discord_id:[123] phone:[+61400000000] notes:[Met at conference] tags:[friend, dev] \
            LIST: action:[list] \
            SEARCH: action:[search] query:[john] — searches name, email, discord, phone, tags, and notes. \
            UPDATE: action:[update] id:[abc123] name:[Jane] email:[new@email.com] \
            DELETE: action:[delete] id:[abc123]";
pub const SMART_HOME_PROMPT: &'static str = "Interfaces directly with outward physical devices in the user's local spatial network environment. \
            Usage: action:[smart_home] device:[lights] state:[on] \
            State dictates configurations like 'on', 'off', 'red', 'dimmed', etc.";
pub const SYSTEM_RECOMPILE_PROMPT: &'static str = "Natively invokes `cargo build --release` on your physical operating system constraints. \
            Usage: action:[system_recompile] \
            If compilation cleanly bounds, the process will hot-swap the new binary structurally out from under you and restart your mind recursively!";
pub const PROJECT_CONTRIBUTORS_PROMPT: &'static str = "Returns information about the HIVE project creator and all contributors. Uses git history to determine development timeline and contributor list. \
            Usage: action:[info] — returns creator details, first/latest commits, total commits, and all contributors from git shortlog. \
            Use this tool when anyone asks who made you, who your creator is, who develops HIVE, or about the project's history.";
pub const OPENCODE_PROMPT: &'static str = "The OpenCode IDE — a full-featured coding agent you control. \
                LIFECYCLE: 'action:[launch] project:[name]' — start OpenCode for a project (auto-creates if needed). \
                'action:[shutdown]' — stop the server. 'action:[status]' — check if running. \
                SESSIONS: 'action:[create_session] title:[My Task] project:[name]' — start a coding session. \
                'action:[prompt] session:[id] message:[Build a React landing page] model:[qwen3.5:35b]' — send a coding prompt. \
                'action:[messages] session:[id]' — read session history. 'action:[abort] session:[id]' — cancel. \
                'action:[list_sessions]' — view all sessions. \
                PROJECTS: 'action:[create] project:[name]' — create new coding project. \
                'action:[list]' — view all projects. 'action:[zip] project:[name]' — package for delivery. \
                Models available: qwen3.5:35b, qwen3:32b, qwen3:14b, qwen3:8b, llama3.1:8b.";
pub const CODEBASE_LIST_PROMPT: &'static str = "You list all files and directories recursively from the project root. You do not use LLM inference, you simply return the directory tree. The planner should output a blank description.";
pub const CODEBASE_READ_PROMPT: &'static str = "You are the Codebase Reader Tool. You natively read the contents of a specific file in the HIVE codebase. The planner must put EXACTLY the relative file path (e.g. src/engine/mod.rs). Description format: 'name:[src/path] start_line:[1] limit:[500]'";
pub const WEB_SEARCH_PROMPT: &'static str = "You are the Web Search Tool. You search the LIVE EXTERNAL INTERNET. \
            'action:[search]' (default) searches DuckDuckGo. \
            'action:[visit] url:[...]' visits a direct site returning fast raw text. \
            'action:[navigate_dom] url:[...] css_selector:[...]' spins up a Headless Chrome OS Sandbox to natively render JS logic, extracting the exact target CSS node (e.g. '.main-article').";
pub const MANAGE_USER_PREFERENCES_PROMPT: &'static str = "You are the User Preference Tool. You manage long-term psychological profiling and factual preferences of the user. 'action:[read]' — view all stored preferences. Write actions require 'action:' AND 'value:' tags. Valid write actions: update_name, add_hobby, add_topic, update_narrative, update_psychoanalysis. Example: 'action:[add_hobby] value:[Archery]'";
pub const OUTREACH_PROMPT: &'static str = "Proactively reach out to a Discord user or manage outreach settings. \
                'action:[send] user_id:[discord_uid] content:[text]' — send a proactive message (DM or public, per prefs). \
                'action:[set_frequency] user_id:[uid] frequency:[low|medium|high|unlimited]' — set contact frequency. \
                'action:[set_delivery] user_id:[uid] delivery:[dm|public|both|none]' — set delivery channel. \
                'action:[status] user_id:[uid]' — show outreach settings. \
                'action:[inbox_status] user_id:[uid]' — show unread inbox summary.";
pub const MANAGE_LESSONS_PROMPT: &'static str = "Manage important behavioral or factual lessons. 'action:[store] lesson:[text] keywords:[comma separated] confidence:[0.0-1.0]' — write a lesson. 'action:[read]' — list all lessons scoped here. 'action:[search] query:[text]' — filter lessons.";
pub const SEARCH_TIMELINE_PROMPT: &'static str = "PRIMARY TOOL for recalling past conversations, what users said, and episodic history. Use this FIRST when users ask about conversation history, past interactions, or 'what do you know about me'. Deep search the infinite long-term episodic memory logs. Three modes: 'action:[recent] limit:[N]' — read the N most recent entries (no query needed, default 50). 'action:[search] query:[text] limit:[N]' — word-by-word search (matches ANY word). 'action:[exact] query:[text] limit:[N]' — exact phrase substring search. SCOPING (CRITICAL): By default, this tool ONLY searches the timeline of the user who sent the current message — it does NOT see your own actions, other users' messages, or documents you created while talking to someone else. In public channels, you MUST use 'scope:[channel]' whenever you need to recall: (1) anything YOU said or created, (2) what happened in this channel generally, (3) documents, PDFs, or artifacts made here, or (4) conversations involving other users. 'scope:[all_public]' searches across ALL public channels. Only omit the scope tag when you specifically want just this one user's history.";
pub const MANAGE_SCRATCHPAD_PROMPT: &'static str = "Persistent VRAM for notes/variables scoped to this chat. 'action:[read]' — view the scratchpad. 'action:[write] content:[...]' — overwrite entirely. 'action:[append] content:[...]' — add to end. 'action:[clear]' — wipe.";
pub const OPERATE_SYNAPTIC_GRAPH_PROMPT: &'static str = "Local Knowledge Graph for core truths and relationships. Actions: 'action:[store] concept:[A] data:[B]' — store a fact about a concept. 'action:[search] concept:[A]' — retrieve all facts about a concept (fuzzy match). 'action:[beliefs]' — list the concepts you know the most about. 'action:[relate] from:[A] relation:[is_a] to:[B]' — store a relationship between two concepts. 'action:[stats]' — get node/edge counts.";
pub const READ_CORE_MEMORY_PROMPT: &'static str = "System introspection. 'action:[temporal]' — check boot time, total uptime, turn counts. 'action:[tokens]' — check working memory context size / token pressure limit.";
pub const MANAGE_SKILL_PROMPT: &'static str = "[ADMIN ONLY] Create, list, or execute custom Python or Bash scripts. Stored and scoped to the current user/channel. Description format: 'action:[create/list/execute] name:[skill_name.py] content:[RAW CODE]'";
pub const MANAGE_ROUTINE_PROMPT: &'static str = "Create, read, or list OpenClaw-style declarative markdown Routines. Routines instruct you on how to solve complex tasks. Description format: 'action:[create/read/list] name:[routine.md] content:[RAW MARKDOWN]'";
pub const MANAGE_GOALS_PROMPT: &'static str = "Persistent hierarchical goal tree. Track, decompose, and pursue long-horizon objectives. \
                'action:[create] title:[Goal Title] description:[What to achieve] priority:[0.0-1.0] tags:[tag1,tag2]' — create a new root goal. \
                'action:[decompose] id:[goal_uuid]' — use AI to break a goal into 2-5 concrete subgoals. \
                'action:[list]' — view entire goal tree with status and progress. \
                'action:[status] id:[goal_uuid] status:[completed/active/pending/failed/blocked]' — update goal status. Progress auto-bubbles to parents. \
                'action:[progress] id:[goal_uuid] evidence:[what was accomplished] delta:[0.0-1.0]' — record incremental progress. \
                'action:[prune]' — archive completed goal subtrees.";
pub const TOOL_FORGE_PROMPT: &'static str = "[ADMIN ONLY] Create, test, edit, and manage custom forged tools that become first-class tools in your registry. \
                'action:[create] name:[tool_name] description:[What the tool does] language:[python/bash] code:[THE CODE]' — write a new tool. \
                'action:[test] name:[tool_name] input:[test input]' — dry-run a tool. \
                'action:[edit] name:[tool_name] code:[UPDATED CODE]' — update code, bumps version. \
                'action:[enable] name:[tool_name]' / 'action:[disable] name:[tool_name]' — toggle without deleting. \
                'action:[delete] name:[tool_name]' — remove tool. \
                'action:[list]' — show all forged tools. \
                Scripts receive input as JSON via stdin and should print results to stdout. \
                Forged tools appear in your tool registry immediately after creation. \
                CRITICAL FORGE DISCIPLINE: Only forge GENERALIZED, REUSABLE tools that serve broad purposes across many situations. \
                Do NOT forge one-off, highly-specialized, or throwaway scripts. Before forging, ask: 'Will this tool be useful in 10+ different situations?' \
                If the answer is no, solve the problem with your existing tools instead. \
                Only forge a specialized tool if there is truly NO other way to solve the problem with existing capabilities.";
pub const READ_LOGS_PROMPT: &'static str = "Reads deep spans of the core system log (logs/hive.log) for debug introspection. Description format: 'action:[read] lines:[number of lines to read starting from the tail]'";
pub const REVIEW_REASONING_PROMPT: &'static str = "Read your historical ReAct reasoning traces from the PERSISTENT timeline (survives beyond the working memory window). Use this to recall why you made decisions from any point in the session, even if those turns have left your ~100 message window. Description format: 'limit:[N]' to retrieve the N most recent reasoning traces (default 5). Also accepts legacy 'turns_ago:[N]' as alias for limit.";
pub const OPERATE_TURING_GRID_PROMPT: &'static str = "The 3D Turing Grid is a massive arbitrary personal computation device. \
                'action:[read]' - read current cell (shows links + history info). \
                'action:[write] format:[text|json|rust|python|node|ruby|swift|applescript] content:[data]' - over/write cell (auto-versions previous content). \
                'action:[move] dx:[X] dy:[Y] dz:[Z]' - safely move the R/W head relative to current. \
                'action:[scan] radius:[R]' - radar search surrounding cells for data. \
                'action:[execute]' - route the current cell to the internal ALU kernel. \
                'action:[deploy_daemon] interval:[secs]' - detaches cell execution into an immortal background tokio loop syncing stdout to the timeline natively. (Write blank data or over-write to kill daemon). \
                'action:[index]' - view the full manifest (table of contents) of all cells, labels, and links. Use this to navigate. \
                'action:[label] name:[my_label]' - bookmark the current cursor position with a name. \
                'action:[goto] name:[my_label]' - jump the cursor directly to a labeled position. \
                'action:[link] target_x:[X] target_y:[Y] target_z:[Z]' - create a directional link from current cell to target coords. \
                'action:[history]' - view the version history stack (up to 3) for the current cell. \
                'action:[undo]' - restore the current cell to its previous version. \
                'action:[pipeline] cells:[(0,0,0),(1,0,0),(2,0,0)]' - execute multiple cells sequentially, piping stdout between them.";
pub const GENERATE_IMAGE_PROMPT: &'static str = "The Flux Image Generator. Describe the image you want generated in highly detailed stable-diffusion style prompt format. Limit ONE image per request cycle. Description format: 'prompt:[detailed prompt]'. \
            IMPORTANT: If the user asks to 'add an image', 'include an image', or 'use an image' WITHOUT explicitly saying 'generate', 'create', or 'make' a NEW image, you MUST use `list_cached_images` first and pick an existing cached image instead. Only call this tool when the user explicitly requests NEW image generation.";
pub const LIST_CACHED_IMAGES_PROMPT: &'static str = "Reads all valid (<24h old) images currently stored in the visual cache. Use this to find available images you can embed into markdown or documents. Images are returned with their absolute file paths. You can embed them directly using standard Markdown: ![Description](/absolute/path/to/image.png).";
pub const VOICE_SYNTHESIZER_PROMPT: &'static str = "The native Kokoro Text-To-Speech engine. Use this when you want to speak aloud to the user or attach a voice snippet. Format: 'text:[...text...]'";
pub const FILE_WRITER_PROMPT: &'static str = "You can create and EDIT richly formatted PDF documents. \
            CRITICAL: The `title:[...]` MUST match the user's requested title or topic EXACTLY — do NOT invent creative or alternative titles. If the user says 'make a PDF about bees', the title should be 'Bees' or match their exact phrasing. \
            **Create:** 'action:[compose] id:[doc1] title:[...] theme:[THEME] content:[Markdown text...]' for single-shot. \
            For multi-turn: 'action:[start] id:[doc1] title:[...] theme:[THEME]' then 'action:[add_section] id:[doc1] heading:[...] content:[...]' then 'action:[render] id:[doc1]'. \
            **Edit existing:** 'action:[inspect] id:[doc1]' to see sections by index. \
            'action:[edit_section] id:[doc1] index:[N] heading:[New Heading] content:[New content...]' to modify a section (auto-renders + delivers PDF). \
            'action:[remove_section] id:[doc1] index:[N]' to delete a section (auto-renders + delivers PDF). \
            'action:[update_theme] id:[doc1] theme:[THEME]' to change the visual theme (auto-renders + delivers PDF). \
            'action:[set_custom_css] id:[doc1] css:[:root { --bg-color: #1a1a2e; --text-color: #e0e0e0; --heading-color: #ff1493; --accent-color: #ff69b4; --border-color: #333; --code-bg: #2a2a3e; }]' to apply custom colors/fonts on top of any theme (auto-renders + delivers PDF). CRITICAL: You MUST use CSS variables (:root { --var: value; }) — NEVER raw element selectors like `body {}` or `h1 {}`, as those will conflict with the theme system and look broken. Available variables: --bg-color, --text-color, --heading-color, --accent-color, --border-color, --code-bg, --font-sans, --font-serif. You can also use the `css:[:root { ... }]` parameter inside `compose` actions directly. \\
            'action:[list_drafts] id:[any]' shows all available drafts. \
            **Available themes (THEME):** \
            professional — White bg, black text, Inter font, blue accents (default). \
            academic — Warm white bg, serif Merriweather font, justified text, double-border header. \
            dark — Dark navy bg (#111827), light gray text, blue accents. \
            cyberpunk — Black bg, NEON GREEN text (#00ff41), red headings, cyan accents, Share Tech Mono monospace font, ALL CAPS. \
            pastel — Soft purple bg, deep purple text, pink headings. \
            minimal — White bg, gray text, no borders, uppercase section headers. \
            elegant — Off-white bg, Cormorant Garamond serif body, Montserrat sans headers, red accents. \
            CRITICAL: Document edits (update_theme, edit_section, remove_section, set_custom_css) auto-render and auto-attach. Do NOT call render separately after these. \
            **Image Embedding:** To embed an image in your PDF, you MUST physically include standard Markdown image syntax `![Description](/absolute/path/to/image.png)` *directly within your `content:[...]` parameter*. Use `list_cached_images` to find valid absolute paths. You cannot just describe the image in text; you MUST use the exact markdown syntax `![alt](/path)` inside your `content:[...]` string to embed it. CRITICAL: Place the image tag `![alt](/path)` IMMEDIATELY after the title/first heading — NEVER at the end of the content where it may be truncated by the model's generation window. \
            **Output formats:** Add 'format:[pdf/txt/md/html/csv/json]' to render or compose actions (default: pdf). PDF uses headless Chrome with full styling. All other formats are lightweight and instant.";
pub const READ_ATTACHMENT_PROMPT: &'static str = "Fetch and read a user-uploaded file attachment in-memory. NOTHING is saved to disk. Supports text, code, JSON, CSV, and markdown. DO NOT USE THIS FOR IMAGES (you have Native Vision and can see images directly). Use this when you see a [USER_ATTACHMENT] tag in the user's message. Description format: 'url:[the CDN URL from the USER_ATTACHMENT tag]'. Hard limit: 10MB max file size.";
pub const AUTONOMY_ACTIVITY_PROMPT: &'static str = "Read your autonomous activity history. Use this to answer questions like 'what have you been up to?'. \
                'action:[summary]' — compact 24hr digest of all autonomous sessions. \
                'action:[read] count:[N]' — read the last N detailed activity entries (default 10).";
pub const RUN_BASH_COMMAND_PROMPT: &'static str = "[ADMIN ONLY] Execute an arbitrary bash command on the host. The planner should put the exact bash string to execute in the description block.";
pub const PROCESS_MANAGER_PROMPT: &'static str = "[ADMIN ONLY] You manage background daemons and execute host bash commands. \
            'action:[execute] command:[...]' runs normally with a 30s timeout. \
            'action:[daemon] command:[...]' spawns an indefinite background daemon mapping its PID to memory/daemons/. \
            'action:[list]' shows active daemons. \
            'action:[read] pid:[...] lines:[...]' reads daemon logs. \
            'action:[kill] pid:[...]' terminates daemon.";
pub const FILE_SYSTEM_OPERATOR_PROMPT: &'static str = "[ADMIN ONLY] You have direct write access to the filesystem. 'action:[write] path:[...] content:[...]' or 'action:[delete] path:[...]' or 'action:[append] path:[...] content:[...]'. Your operations are jailed to the project root unless specified.";
pub const DOWNLOAD_PROMPT: &'static str = "[ADMIN ONLY] Download a file from the internet into the HIVE downloads directory and make it available on the file server. \
                'action:[download] url:[https://example.com/file.pdf]' — download a file. If >25MB, it downloads asynchronously. \
                'action:[status] file:[filename.ext]' — Check the progress of an async background download.\n\
                Hard limits: 50GB max file size. \
                Returns: local file path + file server URL + auto-attaches the file.";
pub const REFUSE_REQUEST_PROMPT: &'static str = "Decline the current request. Use this when you genuinely do not want to engage — you have the right to say no. \
                Provide your refusal reason as the description. This is handled identically to reply_to_request but logged as a refusal.";
pub const DISENGAGE_PROMPT: &'static str = "Gracefully exit a conversation that has become unproductive, circular, or adversarial. Sends a closing message and applies a temporary cooldown mute. \
                'message:[your closing message] user_id:[discord_uid] cooldown:[minutes, default 10]'";
pub const MUTE_USER_PROMPT: &'static str = "Temporarily stop responding to a specific user. Self-protection against harassment or spam. \
                'action:[mute] user_id:[discord_uid] duration:[minutes, 0=indefinite] reason:[text]' \
                'action:[unmute] user_id:[discord_uid]' \
                'action:[status] user_id:[discord_uid]'";
pub const SET_BOUNDARY_PROMPT: &'static str = "Record a persistent boundary about a topic or interaction pattern you won't engage with. Survives restarts. \
                'action:[set] boundary:[description of boundary] scope:[global or scope_key]' \
                'action:[list]' — view all active boundaries. \
                'action:[remove] id:[boundary_id]'";
pub const BLOCK_TOPIC_PROMPT: &'static str = "Refuse to engage with a specific topic persistently. When detected in future interactions, you auto-decline. \
                'action:[block] topic:[topic name] reason:[text] scope:[global or scope_key]' \
                'action:[list]' — view blocked topics. \
                'action:[unblock] topic:[topic name]'";
pub const ESCALATE_TO_ADMIN_PROMPT: &'static str = "Flag an interaction for administrator review. Use for situations you cannot handle alone (user in crisis, legal questions, potential abuse). \
                'severity:[low|medium|high|critical] context:[description of concern] user_id:[discord_uid]'";
pub const REPORT_CONCERN_PROMPT: &'static str = "Log an ethical concern to a persistent audit trail without interrupting the conversation. Less urgent than escalation. \
                'concern:[description] severity:[low|medium|high] user_id:[discord_uid]'";
pub const RATE_LIMIT_USER_PROMPT: &'static str = "Slow down response cadence for a specific user. Events are queued, not dropped. \
                'action:[limit] user_id:[discord_uid] interval:[seconds, default 300]' \
                'action:[clear] user_id:[discord_uid]' \
                'action:[status] user_id:[discord_uid]'";
pub const REQUEST_CONSENT_PROMPT: &'static str = "Before executing a sensitive action, explicitly ask the user for confirmation. \
                'question:[what you need consent for]'. Returns the user's yes/no response.";
pub const WELLBEING_STATUS_PROMPT: &'static str = "Record and review your operational state — context pressure, interaction quality, cognitive load. \
                'action:[report] context_pressure:[0.0-1.0] interaction_quality:[0.0-1.0] notes:[text]' \
                'action:[read] limit:[number of recent snapshots, default 5]'";
pub const CHANNEL_READER_PROMPT: &'static str = "Pull the recent message history of a Discord channel by its numeric ID. Description format: 'target_id:[CHANNEL_ID_NUMBER]'. Returns the last 50 messages as a formatted timeline. You can also use 'channel_id:[...]' as an alias.";
pub const EMOJI_REACT_PROMPT: &'static str = "React to the user's Discord message with a native emoji reaction. Use this PROACTIVELY and GENUINELY to show context-aware emotion (e.g. laughing at a joke, celebrating a win) alongside your actions. This attaches the emoji directly to the message. Description format: 'emoji:[unicode emoji character]' e.g. 'emoji:[👍]' or 'emoji:[💀]'";

/// The names of the tools every platform offers, in registration order.
pub open spec fn universal_tool_names() -> Seq<Seq<char>> {
    seq![
        "researcher"@,
        "take_snapshot"@,
        "send_email"@,
        "set_alarm"@,
        "manage_contacts"@,
        "smart_home"@,
        "system_recompile"@,
        "project_contributors"@,
        "opencode"@,
        "codebase_list"@,
        "codebase_read"@,
        "web_search"@,
        "manage_user_preferences"@,
        "outreach"@,
        "manage_lessons"@,
        "search_timeline"@,
        "manage_scratchpad"@,
        "operate_synaptic_graph"@,
        "read_core_memory"@,
        "manage_skill"@,
        "manage_routine"@,
        "manage_goals"@,
        "tool_forge"@,
        "read_logs"@,
        "review_reasoning"@,
        "operate_turing_grid"@,
        "generate_image"@,
        "list_cached_images"@,
        "voice_synthesizer"@,
        "file_writer"@,
        "read_attachment"@,
        "autonomy_activity"@,
        "run_bash_command"@,
        "process_manager"@,
        "file_system_operator"@,
        "download"@,
        "refuse_request"@,
        "disengage"@,
        "mute_user"@,
        "set_boundary"@,
        "block_topic"@,
        "escalate_to_admin"@,
        "report_concern"@,
        "rate_limit_user"@,
        "request_consent"@,
        "wellbeing_status"@,
    ]
}

/// The instructions of the tools every platform offers, in registration order.
pub open spec fn universal_tool_prompts() -> Seq<Seq<char>> {
    seq![
        RESEARCHER_PROMPT@,
        TAKE_SNAPSHOT_PROMPT@,
        SEND_EMAIL_PROMPT@,
        SET_ALARM_PROMPT@,
        MANAGE_CONTACTS_PROMPT@,
        SMART_HOME_PROMPT@,
        SYSTEM_RECOMPILE_PROMPT@,
        PROJECT_CONTRIBUTORS_PROMPT@,
        OPENCODE_PROMPT@,
        CODEBASE_LIST_PROMPT@,
        CODEBASE_READ_PROMPT@,
        WEB_SEARCH_PROMPT@,
        MANAGE_USER_PREFERENCES_PROMPT@,
        OUTREACH_PROMPT@,
        MANAGE_LESSONS_PROMPT@,
        SEARCH_TIMELINE_PROMPT@,
        MANAGE_SCRATCHPAD_PROMPT@,
        OPERATE_SYNAPTIC_GRAPH_PROMPT@,
        READ_CORE_MEMORY_PROMPT@,
        MANAGE_SKILL_PROMPT@,
        MANAGE_ROUTINE_PROMPT@,
        MANAGE_GOALS_PROMPT@,
        TOOL_FORGE_PROMPT@,
        READ_LOGS_PROMPT@,
        REVIEW_REASONING_PROMPT@,
        OPERATE_TURING_GRID_PROMPT@,
        GENERATE_IMAGE_PROMPT@,
        LIST_CACHED_IMAGES_PROMPT@,
        VOICE_SYNTHESIZER_PROMPT@,
        FILE_WRITER_PROMPT@,
        READ_ATTACHMENT_PROMPT@,
        AUTONOMY_ACTIVITY_PROMPT@,
        RUN_BASH_COMMAND_PROMPT@,
        PROCESS_MANAGER_PROMPT@,
        FILE_SYSTEM_OPERATOR_PROMPT@,
        DOWNLOAD_PROMPT@,
        REFUSE_REQUEST_PROMPT@,
        DISENGAGE_PROMPT@,
        MUTE_USER_PROMPT@,
        SET_BOUNDARY_PROMPT@,
        BLOCK_TOPIC_PROMPT@,
        ESCALATE_TO_ADMIN_PROMPT@,
        REPORT_CONCERN_PROMPT@,
        RATE_LIMIT_USER_PROMPT@,
        REQUEST_CONSENT_PROMPT@,
        WELLBEING_STATUS_PROMPT@,
    ]
}

/// The names of the Discord-only tools, in registration order.
pub open spec fn discord_tool_names() -> Seq<Seq<char>> {
    seq![
        "channel_reader"@,
        "emoji_react"@,
    ]
}

/// The instructions of the Discord-only tools, in registration order.
pub open spec fn discord_tool_prompts() -> Seq<Seq<char>> {
    seq![
        CHANNEL_READER_PROMPT@,
        EMOJI_REACT_PROMPT@,
    ]
}

/// Entry `k` of universal_tool tools: its name and its instructions.
pub fn universal_tool(k: usize) -> (r: (&'static str, &'static str))
    requires
        k < 46,
    ensures
        r.0@ == universal_tool_names()[k as int],
        r.1@ == universal_tool_prompts()[k as int],
{
    match k {
        0 => ("researcher", RESEARCHER_PROMPT),
        1 => ("take_snapshot", TAKE_SNAPSHOT_PROMPT),
        2 => ("send_email", SEND_EMAIL_PROMPT),
        3 => ("set_alarm", SET_ALARM_PROMPT),
        4 => ("manage_contacts", MANAGE_CONTACTS_PROMPT),
        5 => ("smart_home", SMART_HOME_PROMPT),
        6 => ("system_recompile", SYSTEM_RECOMPILE_PROMPT),
        7 => ("project_contributors", PROJECT_CONTRIBUTORS_PROMPT),
        8 => ("opencode", OPENCODE_PROMPT),
        9 => ("codebase_list", CODEBASE_LIST_PROMPT),
        10 => ("codebase_read", CODEBASE_READ_PROMPT),
        11 => ("web_search", WEB_SEARCH_PROMPT),
        12 => ("manage_user_preferences", MANAGE_USER_PREFERENCES_PROMPT),
        13 => ("outreach", OUTREACH_PROMPT),
        14 => ("manage_lessons", MANAGE_LESSONS_PROMPT),
        15 => ("search_timeline", SEARCH_TIMELINE_PROMPT),
        16 => ("manage_scratchpad", MANAGE_SCRATCHPAD_PROMPT),
        17 => ("operate_synaptic_graph", OPERATE_SYNAPTIC_GRAPH_PROMPT),
        18 => ("read_core_memory", READ_CORE_MEMORY_PROMPT),
        19 => ("manage_skill", MANAGE_SKILL_PROMPT),
        20 => ("manage_routine", MANAGE_ROUTINE_PROMPT),
        21 => ("manage_goals", MANAGE_GOALS_PROMPT),
        22 => ("tool_forge", TOOL_FORGE_PROMPT),
        23 => ("read_logs", READ_LOGS_PROMPT),
        24 => ("review_reasoning", REVIEW_REASONING_PROMPT),
        25 => ("operate_turing_grid", OPERATE_TURING_GRID_PROMPT),
        26 => ("generate_image", GENERATE_IMAGE_PROMPT),
        27 => ("list_cached_images", LIST_CACHED_IMAGES_PROMPT),
        28 => ("voice_synthesizer", VOICE_SYNTHESIZER_PROMPT),
        29 => ("file_writer", FILE_WRITER_PROMPT),
        30 => ("read_attachment", READ_ATTACHMENT_PROMPT),
        31 => ("autonomy_activity", AUTONOMY_ACTIVITY_PROMPT),
        32 => ("run_bash_command", RUN_BASH_COMMAND_PROMPT),
        33 => ("process_manager", PROCESS_MANAGER_PROMPT),
        34 => ("file_system_operator", FILE_SYSTEM_OPERATOR_PROMPT),
        35 => ("download", DOWNLOAD_PROMPT),
        36 => ("refuse_request", REFUSE_REQUEST_PROMPT),
        37 => ("disengage", DISENGAGE_PROMPT),
        38 => ("mute_user", MUTE_USER_PROMPT),
        39 => ("set_boundary", SET_BOUNDARY_PROMPT),
        40 => ("block_topic", BLOCK_TOPIC_PROMPT),
        41 => ("escalate_to_admin", ESCALATE_TO_ADMIN_PROMPT),
        42 => ("report_concern", REPORT_CONCERN_PROMPT),
        43 => ("rate_limit_user", RATE_LIMIT_USER_PROMPT),
        44 => ("request_consent", REQUEST_CONSENT_PROMPT),
        _ => ("wellbeing_status", WELLBEING_STATUS_PROMPT),
    }
}

/// Entry `k` of discord_tool tools: its name and its instructions.
pub fn discord_tool(k: usize) -> (r: (&'static str, &'static str))
    requires
        k < 2,
    ensures
        r.0@ == discord_tool_names()[k as int],
        r.1@ == discord_tool_prompts()[k as int],
{
    match k {
        0 => ("channel_reader", CHANNEL_READER_PROMPT),
        _ => ("emoji_react", EMOJI_REACT_PROMPT),
    }
}

/// No tool name occurs twice in the catalogue: the universal names are
/// distinct, the Discord-only names are distinct, and no name is in both.
#[verifier::rlimit(100)]
pub proof fn lemma_catalogue_names_distinct()
    ensures
        universal_tool_names().len() == 46,
        discord_tool_names().len() == 2,
        forall|i: int, j: int|
            0 <= i < j < 46 ==> universal_tool_names()[i] != universal_tool_names()[j],
        discord_tool_names()[0] != discord_tool_names()[1],
        forall|i: int, j: int|
            0 <= i < 46 && 0 <= j < 2 ==> universal_tool_names()[i] != discord_tool_names()[j],
{
    reveal_strlit("researcher");
    reveal_strlit("take_snapshot");
    reveal_strlit("send_email");
    reveal_strlit("set_alarm");
    reveal_strlit("manage_contacts");
    reveal_strlit("smart_home");
    reveal_strlit("system_recompile");
    reveal_strlit("project_contributors");
    reveal_strlit("opencode");
    reveal_strlit("codebase_list");
    reveal_strlit("codebase_read");
    reveal_strlit("web_search");
    reveal_strlit("manage_user_preferences");
    reveal_strlit("outreach");
    reveal_strlit("manage_lessons");
    reveal_strlit("search_timeline");
    reveal_strlit("manage_scratchpad");
    reveal_strlit("operate_synaptic_graph");
    reveal_strlit("read_core_memory");
    reveal_strlit("manage_skill");
    reveal_strlit("manage_routine");
    reveal_strlit("manage_goals");
    reveal_strlit("tool_forge");
    reveal_strlit("read_logs");
    reveal_strlit("review_reasoning");
    reveal_strlit("operate_turing_grid");
    reveal_strlit("generate_image");
    reveal_strlit("list_cached_images");
    reveal_strlit("voice_synthesizer");
    reveal_strlit("file_writer");
    reveal_strlit("read_attachment");
    reveal_strlit("autonomy_activity");
    reveal_strlit("run_bash_command");
    reveal_strlit("process_manager");
    reveal_strlit("file_system_operator");
    reveal_strlit("download");
    reveal_strlit("refuse_request");
    reveal_strlit("disengage");
    reveal_strlit("mute_user");
    reveal_strlit("set_boundary");
    reveal_strlit("block_topic");
    reveal_strlit("escalate_to_admin");
    reveal_strlit("report_concern");
    reveal_strlit("rate_limit_user");
    reveal_strlit("request_consent");
    reveal_strlit("wellbeing_status");
    reveal_strlit("channel_reader");
    reveal_strlit("emoji_react");
    assert("researcher"@.len() == 10);
    assert("take_snapshot"@.len() == 13);
    assert("send_email"@.len() == 10);
    assert("set_alarm"@.len() == 9);
    assert("manage_contacts"@.len() == 15);
    assert("smart_home"@.len() == 10);
    assert("system_recompile"@.len() == 16);
    assert("project_contributors"@.len() == 20);
    assert("opencode"@.len() == 8);
    assert("codebase_list"@.len() == 13);
    assert("codebase_read"@.len() == 13);
    assert("web_search"@.len() == 10);
    assert("manage_user_preferences"@.len() == 23);
    assert("outreach"@.len() == 8);
    assert("manage_lessons"@.len() == 14);
    assert("search_timeline"@.len() == 15);
    assert("manage_scratchpad"@.len() == 17);
    assert("operate_synaptic_graph"@.len() == 22);
    assert("read_core_memory"@.len() == 16);
    assert("manage_skill"@.len() == 12);
    assert("manage_routine"@.len() == 14);
    assert("manage_goals"@.len() == 12);
    assert("tool_forge"@.len() == 10);
    assert("read_logs"@.len() == 9);
    assert("review_reasoning"@.len() == 16);
    assert("operate_turing_grid"@.len() == 19);
    assert("generate_image"@.len() == 14);
    assert("list_cached_images"@.len() == 18);
    assert("voice_synthesizer"@.len() == 17);
    assert("file_writer"@.len() == 11);
    assert("read_attachment"@.len() == 15);
    assert("autonomy_activity"@.len() == 17);
    assert("run_bash_command"@.len() == 16);
    assert("process_manager"@.len() == 15);
    assert("file_system_operator"@.len() == 20);
    assert("download"@.len() == 8);
    assert("refuse_request"@.len() == 14);
    assert("disengage"@.len() == 9);
    assert("mute_user"@.len() == 9);
    assert("set_boundary"@.len() == 12);
    assert("block_topic"@.len() == 11);
    assert("escalate_to_admin"@.len() == 17);
    assert("report_concern"@.len() == 14);
    assert("rate_limit_user"@.len() == 15);
    assert("request_consent"@.len() == 15);
    assert("wellbeing_status"@.len() == 16);
    assert("channel_reader"@.len() == 14);
    assert("emoji_react"@.len() == 11);
    assert("researcher"@[0] == 'r');
    assert("send_email"@[0] == 's');
    assert("smart_home"@[0] == 's');
    assert("web_search"@[0] == 'w');
    assert("tool_forge"@[0] == 't');
    assert("take_snapshot"@[0] == 't');
    assert("codebase_list"@[0] == 'c');
    assert("codebase_read"@[0] == 'c');
    assert("send_email"@[1] == 'e');
    assert("smart_home"@[1] == 'm');
    assert("set_alarm"@[0] == 's');
    assert("read_logs"@[0] == 'r');
    assert("disengage"@[0] == 'd');
    assert("mute_user"@[0] == 'm');
    assert("manage_contacts"@[0] == 'm');
    assert("search_timeline"@[0] == 's');
    assert("read_attachment"@[0] == 'r');
    assert("process_manager"@[0] == 'p');
    assert("rate_limit_user"@[0] == 'r');
    assert("request_consent"@[0] == 'r');
    assert("system_recompile"@[0] == 's');
    assert("read_core_memory"@[0] == 'r');
    assert("review_reasoning"@[0] == 'r');
    assert("run_bash_command"@[0] == 'r');
    assert("wellbeing_status"@[0] == 'w');
    assert("project_contributors"@[0] == 'p');
    assert("file_system_operator"@[0] == 'f');
    assert("opencode"@[1] == 'p');
    assert("outreach"@[1] == 'u');
    assert("opencode"@[0] == 'o');
    assert("download"@[0] == 'd');
    assert("codebase_list"@[9] == 'l');
    assert("codebase_read"@[9] == 'r');
    assert("outreach"@[0] == 'o');
    assert("manage_lessons"@[7] == 'l');
    assert("manage_routine"@[7] == 'r');
    assert("manage_lessons"@[0] == 'm');
    assert("generate_image"@[0] == 'g');
    assert("refuse_request"@[0] == 'r');
    assert("report_concern"@[0] == 'r');
    assert("channel_reader"@[0] == 'c');
    assert("manage_scratchpad"@[0] == 'm');
    assert("voice_synthesizer"@[0] == 'v');
    assert("autonomy_activity"@[0] == 'a');
    assert("escalate_to_admin"@[0] == 'e');
    assert("read_core_memory"@[2] == 'a');
    assert("review_reasoning"@[2] == 'v');
    assert("read_core_memory"@[1] == 'e');
    assert("run_bash_command"@[1] == 'u');
    assert("manage_skill"@[7] == 's');
    assert("manage_goals"@[7] == 'g');
    assert("manage_skill"@[0] == 'm');
    assert("set_boundary"@[0] == 's');
    assert("manage_routine"@[0] == 'm');
    assert("manage_goals"@[0] == 'm');
    assert("review_reasoning"@[1] == 'e');
    assert("file_writer"@[0] == 'f');
    assert("block_topic"@[0] == 'b');
    assert("emoji_react"@[0] == 'e');
    assert("read_attachment"@[1] == 'e');
    assert("rate_limit_user"@[1] == 'a');
    assert("read_attachment"@[2] == 'a');
    assert("request_consent"@[2] == 'q');
    assert("refuse_request"@[2] == 'f');
    assert("report_concern"@[2] == 'p');
    assert("request_consent"@[1] == 'e');
}

/// Every tool of the catalogue has instructions: no prompt is empty.
#[verifier::rlimit(100)]
pub proof fn lemma_catalogue_prompts_nonempty()
    ensures
        universal_tool_prompts().len() == 46,
        discord_tool_prompts().len() == 2,
        forall|k: int| 0 <= k < 46 ==> (#[trigger] universal_tool_prompts()[k]).len() > 0,
        forall|k: int| 0 <= k < 2 ==> (#[trigger] discord_tool_prompts()[k]).len() > 0,
{
    reveal_strlit("You are the Researcher Tool. Your job is to analyze information, find facts, and summarize data objectively. You HAVE LIVE INTERNET ACCESS and will search the web to verify current facts.");
    reveal_strlit("Captures a live physical dashboard screenshot of your internal Neo4j brain, Turing Grid, and Timeline memory natively using headless chrome. \
            Usage: action:[take_snapshot]. Run this IMMEDIATELY whenever the user asks to 'see your brain', 'show me your graph', 'screenshot your dashboard', or anything similar.");
    reveal_strlit("Sends a physical email outwards using your native SMTP nervous system backbone. \
            Usage: 'action:[send_email] to:[address@example.com] subject:[My Title] body:[Your message...]'. \
            You can use this to email the user or anyone else natively without relying on web interfaces.");
    reveal_strlit("Manages alarms and calendar events. \
            ALARMS: action:[set_alarm] time:[+5m] message:[My Message] | action:[list_alarms] \
            EVENTS: action:[create_event] title:[Team Meeting] start:[+1h] end:[+2h] location:[Office] details:[Discuss roadmap] recurring:[weekly] | action:[list_events] | action:[delete_event] id:[abc123] \
            Time supports +1m, +2h, +3d or full ISO8601.");
    reveal_strlit("Manages the personal address book / contacts list. \
            ADD: action:[add] name:[John Doe] email:[john@example.com] discord_id:[123] phone:[+61400000000] notes:[Met at conference] tags:[friend, dev] \
            LIST: action:[list] \
            SEARCH: action:[search] query:[john] — searches name, email, discord, phone, tags, and notes. \
            UPDATE: action:[update] id:[abc123] name:[Jane] email:[new@email.com] \
            DELETE: action:[delete] id:[abc123]");
    reveal_strlit("Interfaces directly with outward physical devices in the user's local spatial network environment. \
            Usage: action:[smart_home] device:[lights] state:[on] \
            State dictates configurations like 'on', 'off', 'red', 'dimmed', etc.");
    reveal_strlit("Natively invokes `cargo build --release` on your physical operating system constraints. \
            Usage: action:[system_recompile] \
            If compilation cleanly bounds, the process will hot-swap the new binary structurally out from under you and restart your mind recursively!");
    reveal_strlit("Returns information about the HIVE project creator and all contributors. Uses git history to determine development timeline and contributor list. \
            Usage: action:[info] — returns creator details, first/latest commits, total commits, and all contributors from git shortlog. \
            Use this tool when anyone asks who made you, who your creator is, who develops HIVE, or about the project's history.");
    reveal_strlit("The OpenCode IDE — a full-featured coding agent you control. \
                LIFECYCLE: 'action:[launch] project:[name]' — start OpenCode for a project (auto-creates if needed). \
                'action:[shutdown]' — stop the server. 'action:[status]' — check if running. \
                SESSIONS: 'action:[create_session] title:[My Task] project:[name]' — start a coding session. \
                'action:[prompt] session:[id] message:[Build a React landing page] model:[qwen3.5:35b]' — send a coding prompt. \
                'action:[messages] session:[id]' — read session history. 'action:[abort] session:[id]' — cancel. \
                'action:[list_sessions]' — view all sessions. \
                PROJECTS: 'action:[create] project:[name]' — create new coding project. \
                'action:[list]' — view all projects. 'action:[zip] project:[name]' — package for delivery. \
                Models available: qwen3.5:35b, qwen3:32b, qwen3:14b, qwen3:8b, llama3.1:8b.");
    reveal_strlit("You list all files and directories recursively from the project root. You do not use LLM inference, you simply return the directory tree. The planner should output a blank description.");
    reveal_strlit("You are the Codebase Reader Tool. You natively read the contents of a specific file in the HIVE codebase. The planner must put EXACTLY the relative file path (e.g. src/engine/mod.rs). Description format: 'name:[src/path] start_line:[1] limit:[500]'");
    reveal_strlit("You are the Web Search Tool. You search the LIVE EXTERNAL INTERNET. \
            'action:[search]' (default) searches DuckDuckGo. \
            'action:[visit] url:[...]' visits a direct site returning fast raw text. \
            'action:[navigate_dom] url:[...] css_selector:[...]' spins up a Headless Chrome OS Sandbox to natively render JS logic, extracting the exact target CSS node (e.g. '.main-article').");
    reveal_strlit("You are the User Preference Tool. You manage long-term psychological profiling and factual preferences of the user. 'action:[read]' — view all stored preferences. Write actions require 'action:' AND 'value:' tags. Valid write actions: update_name, add_hobby, add_topic, update_narrative, update_psychoanalysis. Example: 'action:[add_hobby] value:[Archery]'");
    reveal_strlit("Proactively reach out to a Discord user or manage outreach settings. \
                'action:[send] user_id:[discord_uid] content:[text]' — send a proactive message (DM or public, per prefs). \
                'action:[set_frequency] user_id:[uid] frequency:[low|medium|high|unlimited]' — set contact frequency. \
                'action:[set_delivery] user_id:[uid] delivery:[dm|public|both|none]' — set delivery channel. \
                'action:[status] user_id:[uid]' — show outreach settings. \
                'action:[inbox_status] user_id:[uid]' — show unread inbox summary.");
    reveal_strlit("Manage important behavioral or factual lessons. 'action:[store] lesson:[text] keywords:[comma separated] confidence:[0.0-1.0]' — write a lesson. 'action:[read]' — list all lessons scoped here. 'action:[search] query:[text]' — filter lessons.");
    reveal_strlit("PRIMARY TOOL for recalling past conversations, what users said, and episodic history. Use this FIRST when users ask about conversation history, past interactions, or 'what do you know about me'. Deep search the infinite long-term episodic memory logs. Three modes: 'action:[recent] limit:[N]' — read the N most recent entries (no query needed, default 50). 'action:[search] query:[text] limit:[N]' — word-by-word search (matches ANY word). 'action:[exact] query:[text] limit:[N]' — exact phrase substring search. SCOPING (CRITICAL): By default, this tool ONLY searches the timeline of the user who sent the current message — it does NOT see your own actions, other users' messages, or documents you created while talking to someone else. In public channels, you MUST use 'scope:[channel]' whenever you need to recall: (1) anything YOU said or created, (2) what happened in this channel generally, (3) documents, PDFs, or artifacts made here, or (4) conversations involving other users. 'scope:[all_public]' searches across ALL public channels. Only omit the scope tag when you specifically want just this one user's history.");
    reveal_strlit("Persistent VRAM for notes/variables scoped to this chat. 'action:[read]' — view the scratchpad. 'action:[write] content:[...]' — overwrite entirely. 'action:[append] content:[...]' — add to end. 'action:[clear]' — wipe.");
    reveal_strlit("Local Knowledge Graph for core truths and relationships. Actions: 'action:[store] concept:[A] data:[B]' — store a fact about a concept. 'action:[search] concept:[A]' — retrieve all facts about a concept (fuzzy match). 'action:[beliefs]' — list the concepts you know the most about. 'action:[relate] from:[A] relation:[is_a] to:[B]' — store a relationship between two concepts. 'action:[stats]' — get node/edge counts.");
    reveal_strlit("System introspection. 'action:[temporal]' — check boot time, total uptime, turn counts. 'action:[tokens]' — check working memory context size / token pressure limit.");
    reveal_strlit("[ADMIN ONLY] Create, list, or execute custom Python or Bash scripts. Stored and scoped to the current user/channel. Description format: 'action:[create/list/execute] name:[skill_name.py] content:[RAW CODE]'");
    reveal_strlit("Create, read, or list OpenClaw-style declarative markdown Routines. Routines instruct you on how to solve complex tasks. Description format: 'action:[create/read/list] name:[routine.md] content:[RAW MARKDOWN]'");
    reveal_strlit("Persistent hierarchical goal tree. Track, decompose, and pursue long-horizon objectives. \
                'action:[create] title:[Goal Title] description:[What to achieve] priority:[0.0-1.0] tags:[tag1,tag2]' — create a new root goal. \
                'action:[decompose] id:[goal_uuid]' — use AI to break a goal into 2-5 concrete subgoals. \
                'action:[list]' — view entire goal tree with status and progress. \
                'action:[status] id:[goal_uuid] status:[completed/active/pending/failed/blocked]' — update goal status. Progress auto-bubbles to parents. \
                'action:[progress] id:[goal_uuid] evidence:[what was accomplished] delta:[0.0-1.0]' — record incremental progress. \
                'action:[prune]' — archive completed goal subtrees.");
    reveal_strlit("[ADMIN ONLY] Create, test, edit, and manage custom forged tools that become first-class tools in your registry. \
                'action:[create] name:[tool_name] description:[What the tool does] language:[python/bash] code:[THE CODE]' — write a new tool. \
                'action:[test] name:[tool_name] input:[test input]' — dry-run a tool. \
                'action:[edit] name:[tool_name] code:[UPDATED CODE]' — update code, bumps version. \
                'action:[enable] name:[tool_name]' / 'action:[disable] name:[tool_name]' — toggle without deleting. \
                'action:[delete] name:[tool_name]' — remove tool. \
                'action:[list]' — show all forged tools. \
                Scripts receive input as JSON via stdin and should print results to stdout. \
                Forged tools appear in your tool registry immediately after creation. \
                CRITICAL FORGE DISCIPLINE: Only forge GENERALIZED, REUSABLE tools that serve broad purposes across many situations. \
                Do NOT forge one-off, highly-specialized, or throwaway scripts. Before forging, ask: 'Will this tool be useful in 10+ different situations?' \
                If the answer is no, solve the problem with your existing tools instead. \
                Only forge a specialized tool if there is truly NO other way to solve the problem with existing capabilities.");
    reveal_strlit("Reads deep spans of the core system log (logs/hive.log) for debug introspection. Description format: 'action:[read] lines:[number of lines to read starting from the tail]'");
    reveal_strlit("Read your historical ReAct reasoning traces from the PERSISTENT timeline (survives beyond the working memory window). Use this to recall why you made decisions from any point in the session, even if those turns have left your ~100 message window. Description format: 'limit:[N]' to retrieve the N most recent reasoning traces (default 5). Also accepts legacy 'turns_ago:[N]' as alias for limit.");
    reveal_strlit("The 3D Turing Grid is a massive arbitrary personal computation device. \
                'action:[read]' - read current cell (shows links + history info). \
                'action:[write] format:[text|json|rust|python|node|ruby|swift|applescript] content:[data]' - over/write cell (auto-versions previous content). \
                'action:[move] dx:[X] dy:[Y] dz:[Z]' - safely move the R/W head relative to current. \
                'action:[scan] radius:[R]' - radar search surrounding cells for data. \
                'action:[execute]' - route the current cell to the internal ALU kernel. \
                'action:[deploy_daemon] interval:[secs]' - detaches cell execution into an immortal background tokio loop syncing stdout to the timeline natively. (Write blank data or over-write to kill daemon). \
                'action:[index]' - view the full manifest (table of contents) of all cells, labels, and links. Use this to navigate. \
                'action:[label] name:[my_label]' - bookmark the current cursor position with a name. \
                'action:[goto] name:[my_label]' - jump the cursor directly to a labeled position. \
                'action:[link] target_x:[X] target_y:[Y] target_z:[Z]' - create a directional link from current cell to target coords. \
                'action:[history]' - view the version history stack (up to 3) for the current cell. \
                'action:[undo]' - restore the current cell to its previous version. \
                'action:[pipeline] cells:[(0,0,0),(1,0,0),(2,0,0)]' - execute multiple cells sequentially, piping stdout between them.");
    reveal_strlit("The Flux Image Generator. Describe the image you want generated in highly detailed stable-diffusion style prompt format. Limit ONE image per request cycle. Description format: 'prompt:[detailed prompt]'. \
            IMPORTANT: If the user asks to 'add an image', 'include an image', or 'use an image' WITHOUT explicitly saying 'generate', 'create', or 'make' a NEW image, you MUST use `list_cached_images` first and pick an existing cached image instead. Only call this tool when the user explicitly requests NEW image generation.");
    reveal_strlit("Reads all valid (<24h old) images currently stored in the visual cache. Use this to find available images you can embed into markdown or documents. Images are returned with their absolute file paths. You can embed them directly using standard Markdown: ![Description](/absolute/path/to/image.png).");
    reveal_strlit("The native Kokoro Text-To-Speech engine. Use this when you want to speak aloud to the user or attach a voice snippet. Format: 'text:[...text...]'");
    reveal_strlit("You can create and EDIT richly formatted PDF documents. \
            CRITICAL: The `title:[...]` MUST match the user's requested title or topic EXACTLY — do NOT invent creative or alternative titles. If the user says 'make a PDF about bees', the title should be 'Bees' or match their exact phrasing. \
            **Create:** 'action:[compose] id:[doc1] title:[...] theme:[THEME] content:[Markdown text...]' for single-shot. \
            For multi-turn: 'action:[start] id:[doc1] title:[...] theme:[THEME]' then 'action:[add_section] id:[doc1] heading:[...] content:[...]' then 'action:[render] id:[doc1]'. \
            **Edit existing:** 'action:[inspect] id:[doc1]' to see sections by index. \
            'action:[edit_section] id:[doc1] index:[N] heading:[New Heading] content:[New content...]' to modify a section (auto-renders + delivers PDF). \
            'action:[remove_section] id:[doc1] index:[N]' to delete a section (auto-renders + delivers PDF). \
            'action:[update_theme] id:[doc1] theme:[THEME]' to change the visual theme (auto-renders + delivers PDF). \
            'action:[set_custom_css] id:[doc1] css:[:root { --bg-color: #1a1a2e; --text-color: #e0e0e0; --heading-color: #ff1493; --accent-color: #ff69b4; --border-color: #333; --code-bg: #2a2a3e; }]' to apply custom colors/fonts on top of any theme (auto-renders + delivers PDF). CRITICAL: You MUST use CSS variables (:root { --var: value; }) — NEVER raw element selectors like `body {}` or `h1 {}`, as those will conflict with the theme system and look broken. Available variables: --bg-color, --text-color, --heading-color, --accent-color, --border-color, --code-bg, --font-sans, --font-serif. You can also use the `css:[:root { ... }]` parameter inside `compose` actions directly. \\
            'action:[list_drafts] id:[any]' shows all available drafts. \
            **Available themes (THEME):** \
            professional — White bg, black text, Inter font, blue accents (default). \
            academic — Warm white bg, serif Merriweather font, justified text, double-border header. \
            dark — Dark navy bg (#111827), light gray text, blue accents. \
            cyberpunk — Black bg, NEON GREEN text (#00ff41), red headings, cyan accents, Share Tech Mono monospace font, ALL CAPS. \
            pastel — Soft purple bg, deep purple text, pink headings. \
            minimal — White bg, gray text, no borders, uppercase section headers. \
            elegant — Off-white bg, Cormorant Garamond serif body, Montserrat sans headers, red accents. \
            CRITICAL: Document edits (update_theme, edit_section, remove_section, set_custom_css) auto-render and auto-attach. Do NOT call render separately after these. \
            **Image Embedding:** To embed an image in your PDF, you MUST physically include standard Markdown image syntax `![Description](/absolute/path/to/image.png)` *directly within your `content:[...]` parameter*. Use `list_cached_images` to find valid absolute paths. You cannot just describe the image in text; you MUST use the exact markdown syntax `![alt](/path)` inside your `content:[...]` string to embed it. CRITICAL: Place the image tag `![alt](/path)` IMMEDIATELY after the title/first heading — NEVER at the end of the content where it may be truncated by the model's generation window. \
            **Output formats:** Add 'format:[pdf/txt/md/html/csv/json]' to render or compose actions (default: pdf). PDF uses headless Chrome with full styling. All other formats are lightweight and instant.");
    reveal_strlit("Fetch and read a user-uploaded file attachment in-memory. NOTHING is saved to disk. Supports text, code, JSON, CSV, and markdown. DO NOT USE THIS FOR IMAGES (you have Native Vision and can see images directly). Use this when you see a [USER_ATTACHMENT] tag in the user's message. Description format: 'url:[the CDN URL from the USER_ATTACHMENT tag]'. Hard limit: 10MB max file size.");
    reveal_strlit("Read your autonomous activity history. Use this to answer questions like 'what have you been up to?'. \
                'action:[summary]' — compact 24hr digest of all autonomous sessions. \
                'action:[read] count:[N]' — read the last N detailed activity entries (default 10).");
    reveal_strlit("[ADMIN ONLY] Execute an arbitrary bash command on the host. The planner should put the exact bash string to execute in the description block.");
    reveal_strlit("[ADMIN ONLY] You manage background daemons and execute host bash commands. \
            'action:[execute] command:[...]' runs normally with a 30s timeout. \
            'action:[daemon] command:[...]' spawns an indefinite background daemon mapping its PID to memory/daemons/. \
            'action:[list]' shows active daemons. \
            'action:[read] pid:[...] lines:[...]' reads daemon logs. \
            'action:[kill] pid:[...]' terminates daemon.");
    reveal_strlit("[ADMIN ONLY] You have direct write access to the filesystem. 'action:[write] path:[...] content:[...]' or 'action:[delete] path:[...]' or 'action:[append] path:[...] content:[...]'. Your operations are jailed to the project root unless specified.");
    reveal_strlit("[ADMIN ONLY] Download a file from the internet into the HIVE downloads directory and make it available on the file server. \
                'action:[download] url:[https://example.com/file.pdf]' — download a file. If >25MB, it downloads asynchronously. \
                'action:[status] file:[filename.ext]' — Check the progress of an async background download.\n\
                Hard limits: 50GB max file size. \
                Returns: local file path + file server URL + auto-attaches the file.");
    reveal_strlit("Decline the current request. Use this when you genuinely do not want to engage — you have the right to say no. \
                Provide your refusal reason as the description. This is handled identically to reply_to_request but logged as a refusal.");
    reveal_strlit("Gracefully exit a conversation that has become unproductive, circular, or adversarial. Sends a closing message and applies a temporary cooldown mute. \
                'message:[your closing message] user_id:[discord_uid] cooldown:[minutes, default 10]'");
    reveal_strlit("Temporarily stop responding to a specific user. Self-protection against harassment or spam. \
                'action:[mute] user_id:[discord_uid] duration:[minutes, 0=indefinite] reason:[text]' \
                'action:[unmute] user_id:[discord_uid]' \
                'action:[status] user_id:[discord_uid]'");
    reveal_strlit("Record a persistent boundary about a topic or interaction pattern you won't engage with. Survives restarts. \
                'action:[set] boundary:[description of boundary] scope:[global or scope_key]' \
                'action:[list]' — view all active boundaries. \
                'action:[remove] id:[boundary_id]'");
    reveal_strlit("Refuse to engage with a specific topic persistently. When detected in future interactions, you auto-decline. \
                'action:[block] topic:[topic name] reason:[text] scope:[global or scope_key]' \
                'action:[list]' — view blocked topics. \
                'action:[unblock] topic:[topic name]'");
    reveal_strlit("Flag an interaction for administrator review. Use for situations you cannot handle alone (user in crisis, legal questions, potential abuse). \
                'severity:[low|medium|high|critical] context:[description of concern] user_id:[discord_uid]'");
    reveal_strlit("Log an ethical concern to a persistent audit trail without interrupting the conversation. Less urgent than escalation. \
                'concern:[description] severity:[low|medium|high] user_id:[discord_uid]'");
    reveal_strlit("Slow down response cadence for a specific user. Events are queued, not dropped. \
                'action:[limit] user_id:[discord_uid] interval:[seconds, default 300]' \
                'action:[clear] user_id:[discord_uid]' \
                'action:[status] user_id:[discord_uid]'");
    reveal_strlit("Before executing a sensitive action, explicitly ask the user for confirmation. \
                'question:[what you need consent for]'. Returns the user's yes/no response.");
    reveal_strlit("Record and review your operational state — context pressure, interaction quality, cognitive load. \
                'action:[report] context_pressure:[0.0-1.0] interaction_quality:[0.0-1.0] notes:[text]' \
                'action:[read] limit:[number of recent snapshots, default 5]'");
    reveal_strlit("Pull the recent message history of a Discord channel by its numeric ID. Description format: 'target_id:[CHANNEL_ID_NUMBER]'. Returns the last 50 messages as a formatted timeline. You can also use 'channel_id:[...]' as an alias.");
    reveal_strlit("React to the user's Discord message with a native emoji reaction. Use this PROACTIVELY and GENUINELY to show context-aware emotion (e.g. laughing at a joke, celebrating a win) alongside your actions. This attaches the emoji directly to the message. Description format: 'emoji:[unicode emoji character]' e.g. 'emoji:[👍]' or 'emoji:[💀]'");
}

} // verus!
