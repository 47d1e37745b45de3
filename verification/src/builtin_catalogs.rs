//! The built-in message catalogs, as TOML documents.

use vstd::prelude::*;

verus! {

/// The messages of the default language, `zh-CN`.
pub const ZH_CN_SOURCE: &'static str = "[common]
enabled = '已启用'
disabled = '已禁用'

[status]
ready = '就绪'
typing = '正在输入...'
typing_paused = '输入已暂停'
clipboard_empty = '剪贴板为空'
input_complete = '输入完成'
input_error = '输入错误: %{err}'
input_init_error = '输入设备初始化失败: %{err}'
clipboard_init_fail = '剪贴板初始化失败: %{err}'
enabled = '程序已启用'
disabled = '程序已禁用'
cleared = '已清空'
permissions_ok = '权限检查通过'
app_settings_saved = '设置已保存'
hotkey_registered = '快捷键已注册: %{hotkey}'
hotkey_updated = '快捷键已更新: %{hotkey}'
hotkey_register_fail = '快捷键注册失败: %{err}'
hotkey_manager_fail = '快捷键管理器创建失败: %{err}'

[log]
app_exit = '程序退出'
window_minimized_to_tray = '窗口已最小化到托盘'
clipboard_changed = '剪贴板内容已更新，长度: %{len}'
clipboard_preview = '内容预览: %{preview}'
clipboard_empty = '剪贴板为空，无法输入'
clipboard_init_fail = '无法初始化剪贴板: %{err}'
clipboard_monitor_started = '剪贴板监控已启动'
hotkey_triggered = '快捷键已触发'
hotkey_registered = '快捷键已注册: %{hotkey}'
hotkey_updated = '快捷键已更新: %{hotkey}'
hotkey_unregistered = '旧快捷键已注销'
hotkey_unregister_fail = '注销旧快捷键失败: %{err}'
hotkey_register_fail = '注册快捷键失败: %{err}'
hotkey_manager_fail = '创建快捷键管理器失败: %{err}'
input_start = '开始输入，长度: %{len}，延迟: %{delay}ms，偏差: %{variance}ms，启用偏差: %{variance_enabled}'
input_complete = '输入完成'
input_error = '输入错误: %{err}'
input_init_error = '无法初始化输入设备: %{err}'
permission_issue = '检测到权限问题: %{issues}'
request_ignored_disabled = '程序已禁用，忽略输入请求'
request_ignored_typing = '正在输入中，忽略重复请求'
save_config_fail = '保存配置失败: %{err}'
save_app_config_fail = '保存应用配置失败: %{err}'
tray_event = '托盘事件: %{id}'
tray_exec_exit = '执行退出'
tray_exec_show = '执行显示窗口'
tray_exec_toggle = '切换状态: %{state}'

[permissions]
warn_keyboard = '缺少键盘模拟权限'
warn_clipboard = '缺少剪贴板访问权限'

[permissions.fix]
windows = '请尝试以管理员身份运行，并检查安全软件是否阻止了键盘模拟。'
macos = '请在 系统设置 > 隐私与安全性 > 辅助功能 中允许本程序。'
linux = '请将当前用户加入 input 组，然后重新登录。'

[permissions.windows]
not_admin = '当前未以管理员身份运行'
enigo_ok = '键盘模拟可用'
enigo_fail = '键盘模拟不可用: %{err}'
enigo_fail_issue = '无法初始化键盘模拟: %{err}'

[permissions.macos]
accessibility_granted = '辅助功能权限已授予'
accessibility_denied = '辅助功能权限被拒绝: %{err}'
accessibility_fix = '请在系统设置中授予辅助功能权限'

[permissions.linux]
keyboard_ok = '键盘模拟可用'
keyboard_denied = '无法访问输入设备: %{err}'
add_to_input_group = '请将用户加入 input 组'

[tray]
tooltip = 'Copy&Type - 剪贴板输入助手'
menu_show = '显示窗口'
menu_toggle = '启用/禁用'
menu_exit = '退出'

[tray.log]
created = '托盘图标已创建'
create_fail = '创建托盘图标失败: %{err}'
menu_created = '托盘菜单已创建，共 %{count} 项'
add_show_fail = '添加显示菜单项失败: %{err}'
add_toggle_fail = '添加切换菜单项失败: %{err}'
add_sep_fail = '添加分隔线失败: %{err}'
add_exit_fail = '添加退出菜单项失败: %{err}'

[ui]
title_main = 'Copy&Type 剪贴板输入助手'
title_permission_warning = '权限警告'
window_hotkey_settings = '快捷键设置'
window_app_settings = '应用设置'
menu_file = '文件'
menu_minimize_to_tray = '最小化到托盘'
menu_exit = '退出'
menu_settings = '设置'
menu_hotkey_settings = '快捷键设置'
menu_app_settings = '应用设置'
menu_help = '帮助'
menu_check_permissions = '检查权限'
button_acknowledge = '我知道了'
button_exit = '退出程序'
button_modify = '修改'
button_save = '保存'
button_cancel = '取消'
button_clear = '清空'
button_manual_type = '手动输入'
label_status = '状态: %{status}'
label_app_status = '程序状态:'
label_enabled = '已启用'
label_disabled = '已禁用'
label_current_hotkey = '当前快捷键:'
label_waiting_text = '待输入文本:'
label_empty = '(空)'
label_char_count = '字符数: %{count}'
label_line_count = '行数: %{count}'
label_modifiers = '修饰键:'
label_keys = '按键:'
label_preview = '预览:'
label_permission_issues = '检测到以下权限问题:'
label_permission_problem = '权限问题'
label_fix_suggestions = '修复建议'

[ui.app]
label_close_window_action = '关闭窗口时:'
close_action_minimize_to_tray = '最小化到托盘'
close_action_exit = '退出程序'
checkbox_start_minimized = '启动时最小化'
checkbox_show_console = '显示调试控制台'
checkbox_history_enabled = '保存剪贴板历史'
label_language = '界面语言:'
label_restart_required = '重启后生效'
group_typing_settings = '输入设置'
group_history_settings = '历史设置'
label_base_delay_ms = '基础延迟:'
label_variance_ms = '随机偏差:'
label_presets = '预设:'
label_history_max_items = '最多保存:'
history_item_unit = '条'
preset_ultra = '极速'
preset_fast = '快速'
preset_normal = '正常'
preset_slow = '慢速'
typing_speed = '约 %{cpm} 字/分钟'
typing_speed_infinite = '极速模式'
typing_tip = '提示: 延迟越大越像真人输入'
";

/// The messages in English, `en`.
pub const EN_SOURCE: &'static str = "[common]
enabled = 'enabled'
disabled = 'disabled'

[status]
ready = 'Ready'
typing = 'Typing...'
typing_paused = 'Typing paused'
clipboard_empty = 'Clipboard is empty'
input_complete = 'Typing complete'
input_error = 'Input error: %{err}'
input_init_error = 'Input device failed to start: %{err}'
clipboard_init_fail = 'Clipboard failed to start: %{err}'
enabled = 'Monitoring enabled'
disabled = 'Monitoring disabled'
cleared = 'Cleared'
permissions_ok = 'All permissions granted'
app_settings_saved = 'Settings saved'
hotkey_registered = 'Hotkey registered: %{hotkey}'
hotkey_updated = 'Hotkey updated: %{hotkey}'
hotkey_register_fail = 'Hotkey registration failed: %{err}'
hotkey_manager_fail = 'Hotkey manager failed to start: %{err}'

[log]
app_exit = 'Application exiting'
window_minimized_to_tray = 'Window minimized to tray'
clipboard_changed = 'Clipboard changed, length: %{len}'
clipboard_preview = 'Preview: %{preview}'
clipboard_empty = 'Clipboard is empty, nothing to type'
clipboard_init_fail = 'Cannot open the clipboard: %{err}'
clipboard_monitor_started = 'Clipboard monitor started'
hotkey_triggered = 'Hotkey triggered'
hotkey_registered = 'Hotkey registered: %{hotkey}'
hotkey_updated = 'Hotkey updated: %{hotkey}'
hotkey_unregistered = 'Previous hotkey unregistered'
hotkey_unregister_fail = 'Cannot unregister the previous hotkey: %{err}'
hotkey_register_fail = 'Cannot register the hotkey: %{err}'
hotkey_manager_fail = 'Cannot create the hotkey manager: %{err}'
input_start = 'Typing started, length: %{len}, delay: %{delay}ms, variance: %{variance}ms, variance enabled: %{variance_enabled}'
input_complete = 'Typing complete'
input_error = 'Input error: %{err}'
input_init_error = 'Cannot start the input device: %{err}'
permission_issue = 'Permission problems found: %{issues}'
request_ignored_disabled = 'Monitoring is disabled, request ignored'
request_ignored_typing = 'Already typing, request ignored'
save_config_fail = 'Cannot save the configuration: %{err}'
save_app_config_fail = 'Cannot save the settings: %{err}'
tray_event = 'Tray event: %{id}'
tray_exec_exit = 'Exit requested'
tray_exec_show = 'Show window requested'
tray_exec_toggle = 'Monitoring toggled: %{state}'

[permissions]
warn_keyboard = 'Keyboard simulation is not permitted'
warn_clipboard = 'Clipboard access is not permitted'

[permissions.fix]
windows = 'Try running as administrator, and check whether security software blocks simulated input.'
macos = 'Allow this program under System Settings > Privacy & Security > Accessibility.'
linux = 'Add your user to the input group, then log in again.'

[permissions.windows]
not_admin = 'Not running as administrator'
enigo_ok = 'Keyboard simulation is available'
enigo_fail = 'Keyboard simulation is unavailable: %{err}'
enigo_fail_issue = 'Cannot start keyboard simulation: %{err}'

[permissions.macos]
accessibility_granted = 'Accessibility permission granted'
accessibility_denied = 'Accessibility permission denied: %{err}'
accessibility_fix = 'Grant the accessibility permission in System Settings'

[permissions.linux]
keyboard_ok = 'Keyboard simulation is available'
keyboard_denied = 'Cannot reach the input device: %{err}'
add_to_input_group = 'Add your user to the input group'

[tray]
tooltip = 'Copy&Type - clipboard typing helper'
menu_show = 'Show window'
menu_toggle = 'Enable/Disable'
menu_exit = 'Exit'

[tray.log]
created = 'Tray icon created'
create_fail = 'Cannot create the tray icon: %{err}'
menu_created = 'Tray menu created with %{count} items'
add_show_fail = 'Cannot add the show item: %{err}'
add_toggle_fail = 'Cannot add the toggle item: %{err}'
add_sep_fail = 'Cannot add the separator: %{err}'
add_exit_fail = 'Cannot add the exit item: %{err}'

[ui]
title_main = 'Copy&Type clipboard typing helper'
title_permission_warning = 'Permission warning'
window_hotkey_settings = 'Hotkey settings'
window_app_settings = 'Application settings'
menu_file = 'File'
menu_minimize_to_tray = 'Minimize to tray'
menu_exit = 'Exit'
menu_settings = 'Settings'
menu_hotkey_settings = 'Hotkey settings'
menu_app_settings = 'Application settings'
menu_help = 'Help'
menu_check_permissions = 'Check permissions'
button_acknowledge = 'Got it'
button_exit = 'Exit'
button_modify = 'Change'
button_save = 'Save'
button_cancel = 'Cancel'
button_clear = 'Clear'
button_manual_type = 'Type now'
label_status = 'Status: %{status}'
label_app_status = 'Monitoring:'
label_enabled = 'Enabled'
label_disabled = 'Disabled'
label_current_hotkey = 'Current hotkey:'
label_waiting_text = 'Text waiting to be typed:'
label_empty = '(empty)'
label_char_count = 'Characters: %{count}'
label_line_count = 'Lines: %{count}'
label_modifiers = 'Modifiers:'
label_keys = 'Key:'
label_preview = 'Preview:'
label_permission_issues = 'These permission problems were found:'
label_permission_problem = 'Permission problem'
label_fix_suggestions = 'How to fix'

[ui.app]
label_close_window_action = 'When the window is closed:'
close_action_minimize_to_tray = 'Minimize to tray'
close_action_exit = 'Exit'
checkbox_start_minimized = 'Start minimized'
checkbox_show_console = 'Show the debug console'
checkbox_history_enabled = 'Keep a clipboard history'
label_language = 'Language:'
label_restart_required = 'Takes effect after a restart'
group_typing_settings = 'Typing'
group_history_settings = 'History'
label_base_delay_ms = 'Base delay:'
label_variance_ms = 'Random variance:'
label_presets = 'Presets:'
label_history_max_items = 'Keep at most:'
history_item_unit = 'items'
preset_ultra = 'Ultra'
preset_fast = 'Fast'
preset_normal = 'Normal'
preset_slow = 'Slow'
typing_speed = 'about %{cpm} chars/min'
typing_speed_infinite = 'As fast as possible'
typing_tip = 'Tip: a larger delay looks more like a person typing'
";

} // verus!
